# wstui

The verified core of a terminal client for WebSocket servers, and the client
around it.

`src/` is the library, in Verus:

- `columns`: display widths, and the character at a display column
- `utf8`: character positions and byte positions
- `text_state`: a text area as lines with a cursor, and the laws of editing
- `text_area`: the multi-line text input
- `decimal`: numbers as text
- `message`: recorded messages and how they are shown
- `app`: the state of the application and how actions change it
- `keys`: the key bindings
- `connection`: the steps of connecting to a server
- `ui`: what the screen shows, and where

The widths come from `unicode-width`, dates from `chrono`, URLs from `url` and
the split of the screen from `tui`. Each of these calls stands in a small
function whose contract is trusted and says so.

`app/` is the program: the terminal, the network, the tasks and the log.
