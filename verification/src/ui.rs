//! What the screen shows.

use crate::app::{App, InputMode};
use crate::message;
use crate::message::{format_message, MessageLine};
use crate::text_area::CursorPosition;
use vstd::prelude::*;
use vstd::string::*;

verus! {

/// An area of the screen, in cells.
#[derive(Debug, Clone, Copy, PartialEq, Eq, Structural)]
pub struct Rect {
    pub x: u16,
    pub y: u16,
    pub width: u16,
    pub height: u16,
}

impl Rect {
    /// The right and the lower edge have coordinates.
    pub open spec fn wf(self) -> bool {
        &&& self.x + self.width <= u16::MAX
        &&& self.y + self.height <= u16::MAX
    }

    /// The area without a margin on each side, or no area at all if it is too
    /// small for one.
    pub open spec fn inner(self, margin: u16) -> Rect {
        if self.width < 2 * margin || self.height < 2 * margin {
            Rect { x: 0, y: 0, width: 0, height: 0 }
        } else {
            Rect {
                x: (self.x + margin) as u16,
                y: (self.y + margin) as u16,
                width: (self.width - 2 * margin) as u16,
                height: (self.height - 2 * margin) as u16,
            }
        }
    }
}

/// A piece of text in one style.
#[derive(Debug)]
pub struct Span {
    pub text: String,
    pub bold: bool,
}

impl View for Span {
    type V = (Seq<char>, bool);

    open spec fn view(&self) -> (Seq<char>, bool) {
        (self.text@, self.bold)
    }
}

/// A text in a frame with a title.
#[derive(Debug)]
pub struct Panel {
    pub title: String,
    pub text: String,
}

/// A list of messages in a frame with a title.
#[derive(Debug)]
pub struct MessageList {
    pub title: String,
    pub lines: Vec<MessageLine>,
}

/// Everything that is on the screen, and where.
#[derive(Debug)]
pub struct Screen {
    pub help: Vec<Span>,
    pub help_area: Rect,
    pub input: Panel,
    pub input_area: Rect,
    /// The column and the row of the cursor, or `None` where it is hidden.
    pub cursor: Option<(u16, u16)>,
    pub messages: MessageList,
    pub messages_area: Rect,
}

/// The margin around everything.
pub const MARGIN: u16 = 2;

/// The height of the help message.
pub const HELP_HEIGHT: u16 = 1;

/// The rows that the frame of the input takes up.
pub const BORDERS: u16 = 2;

/// The least height of the list of messages.
pub const MIN_MESSAGES_HEIGHT: u16 = 1;

/// What splitting an area into three rows can come to. The rows are as wide as
/// the area inside the margin and fill it from top to bottom. Where the heights
/// that are asked for fit, the first two rows have them and the third has the
/// rest. Where they do not fit, no row is higher than was asked for.
pub open spec fn rows_of(
    area: Rect,
    margin: u16,
    first: u16,
    second: u16,
    least_third: u16,
    rows: Seq<Rect>,
) -> bool {
    let inner = area.inner(margin);
    &&& rows.len() == 3
    &&& forall|i: int|
        0 <= i < 3 ==> (#[trigger] rows[i]).x == inner.x && rows[i].width == inner.width
    &&& rows[0].y == inner.y
    &&& rows[1].y == rows[0].y + rows[0].height
    &&& rows[2].y == rows[1].y + rows[1].height
    &&& rows[2].y + rows[2].height == inner.y + inner.height
    &&& first + second + least_third <= inner.height ==> rows[0].height == first
        && rows[1].height == second
    &&& first + second + least_third > inner.height ==> rows[0].height <= first
        && rows[1].height <= second && rows[2].height <= least_third
}

/// Calls `Layout::split` of the crate `tui`, with a vertical direction, a
/// margin, and the constraints `Length(first)`, `Length(second)` and
/// `Min(least_third)`.
///
/// Trusted: the result is as `rows_of` says. The constraint solver behind the
/// call makes the sum of the departures from the heights as small as it can be,
/// so in an area that is too low no row takes more than its height from the
/// others. Which of them gets how much less is not stated, since the solver
/// walks hash maps.
#[verifier::external_body]
fn split_rows(area: Rect, margin: u16, first: u16, second: u16, least_third: u16) -> (rows: Vec<
    Rect,
>)
    requires
        area.wf(),
        margin <= 0x7fff,
    ensures
        rows_of(area, margin, first, second, least_third, rows@),
{
    let heights = [
        tui::layout::Constraint::Length(first),
        tui::layout::Constraint::Length(second),
        tui::layout::Constraint::Min(least_third),
    ];
    tui::layout::Layout::default()
        .direction(tui::layout::Direction::Vertical)
        .margin(margin)
        .constraints(heights.as_ref())
        .split(tui::layout::Rect { x: area.x, y: area.y, width: area.width, height: area.height })
        .into_iter()
        .map(|r| Rect { x: r.x, y: r.y, width: r.width, height: r.height })
        .collect()
}

/// The last sixteen bits of a number.
fn low_u16(n: usize) -> (low: u16)
    ensures
        low == n % 65536,
{
    proof {
        assert((n as u16) as int == n % 65536) by (bit_vector);
    }
    #[verifier::truncate]
    (n as u16)
}

/// The height of the input: its lines and its frame.
pub fn input_height(nlines: usize) -> (height: u16)
    requires
        nlines % 65536 + BORDERS <= u16::MAX,
    ensures
        height == nlines % 65536 + BORDERS,
{
    low_u16(nlines) + BORDERS
}

/// The cell that shows place `n` of a frame whose edge is at `origin`. The
/// frame itself takes up the first cell.
pub open spec fn cell_of(origin: u16, n: usize) -> int {
    origin + n % 65536 + 1
}

/// The cell of the cursor in a framed area has coordinates.
pub open spec fn cursor_fits(cursor: CursorPosition, area: Rect) -> bool {
    &&& cell_of(area.x, cursor.col) <= u16::MAX
    &&& cell_of(area.y, cursor.row) <= u16::MAX
}

/// Where the cursor is shown: nowhere in normal mode, and at its place inside
/// the framed input in edit mode.
pub open spec fn shown_at(mode: InputMode, cursor: CursorPosition, area: Rect) -> Option<
    (u16, u16),
> {
    match mode {
        InputMode::Normal => None,
        InputMode::Editing => Some(
            (cell_of(area.x, cursor.col) as u16, cell_of(area.y, cursor.row) as u16),
        ),
    }
}

/// Manage cursor control for the input field
pub fn handle_input_cursor(app: &App, area: &Rect) -> (cursor: Option<(u16, u16)>)
    requires
        app.input_mode == InputMode::Editing ==> cursor_fits(app.text_area.shown_cursor(), *area),
    ensures
        cursor == shown_at(app.input_mode, app.text_area.shown_cursor(), *area),
{
    match app.input_mode {
        // Hide the cursor.
        InputMode::Normal => None,
        InputMode::Editing => {
            let cursor = app.text_area.cursor_position();
            Some((area.x + low_u16(cursor.col) + 1, area.y + low_u16(cursor.row) + 1))
        },
    }
}

/// The help message of each mode, with the keys in bold.
pub open spec fn help_text(mode: InputMode) -> Seq<(Seq<char>, bool)> {
    match mode {
        InputMode::Normal => seq![
            ("Press "@, false),
            ("q"@, true),
            (" to exit, "@, false),
            ("e"@, true),
            (" to start editing."@, false),
        ],
        InputMode::Editing => seq![
            ("Press "@, false),
            ("Esc"@, true),
            (" to stop editing, "@, false),
            ("Enter"@, true),
            (" to record the message"@, false),
        ],
    }
}

fn raw(text: &str) -> (span: Span)
    ensures
        span@ == (text@, false),
{
    Span { text: text.to_owned(), bold: false }
}

fn bold(text: &str) -> (span: Span)
    ensures
        span@ == (text@, true),
{
    Span { text: text.to_owned(), bold: true }
}

/// The help message of the mode that the application is in.
pub fn create_help_message(app: &App) -> (help: Vec<Span>)
    ensures
        help@.map_values(|span: Span| span@) == help_text(app.input_mode),
{
    let help = match app.input_mode {
        InputMode::Normal => vec![
            raw("Press "),
            bold("q"),
            raw(" to exit, "),
            bold("e"),
            raw(" to start editing."),
        ],
        InputMode::Editing => vec![
            raw("Press "),
            bold("Esc"),
            raw(" to stop editing, "),
            bold("Enter"),
            raw(" to record the message"),
        ],
    };
    assert(help@.map_values(|span: Span| span@) =~= help_text(app.input_mode));
    help
}

/// Where everything is on the screen, given the areas of the help message, of
/// the input and of the messages.
pub open spec fn is_composed(app: App, rows: Seq<Rect>, screen: Screen) -> bool {
    &&& screen.help@.map_values(|span: Span| span@) == help_text(app.input_mode)
    &&& screen.help_area == rows[0]
    &&& screen.input.title@ == "Input"@
    &&& screen.input.text@ == app.text_area@.content()
    &&& screen.input_area == rows[1]
    &&& screen.cursor == shown_at(app.input_mode, app.text_area.shown_cursor(), rows[1])
    &&& screen.messages.title@ == "Messages"@
    &&& screen.messages.lines@.len() == app.messages@.len()
    &&& forall|i: int|
        0 <= i < app.messages@.len() ==> {
            &&& (#[trigger] screen.messages.lines@[i]).text@ == message::message_text(
                app.messages@[i].kind,
                message::formatted_instant(app.messages@[i].ts@, message::stamp_pattern()),
                app.messages@[i].text@,
            )
            &&& screen.messages.lines@[i].color == message::color_of(app.messages@[i].kind)
        }
    &&& screen.messages_area == rows[2]
}

/// Put everything on the screen, given the areas of the help message, of the
/// input and of the messages.
pub fn compose(app: &App, rows: &Vec<Rect>) -> (screen: Screen)
    requires
        rows@.len() == 3,
        app.input_mode == InputMode::Editing ==> cursor_fits(
            app.text_area.shown_cursor(),
            rows@[1],
        ),
    ensures
        is_composed(*app, rows@, screen),
{
    let mut lines: Vec<MessageLine> = Vec::new();
    let mut i: usize = 0;
    while i < app.messages.len()
        invariant
            i <= app.messages@.len(),
            lines@.len() == i,
            forall|j: int|
                0 <= j < i ==> {
                    &&& (#[trigger] lines@[j]).text@ == message::message_text(
                        app.messages@[j].kind,
                        message::formatted_instant(app.messages@[j].ts@, message::stamp_pattern()),
                        app.messages@[j].text@,
                    )
                    &&& lines@[j].color == message::color_of(app.messages@[j].kind)
                },
        decreases app.messages@.len() - i,
    {
        lines.push(format_message(&app.messages[i]));
        i = i + 1;
    }
    Screen {
        help: create_help_message(app),
        help_area: rows[0],
        input: app.text_area.render(&rows[1]),
        input_area: rows[1],
        cursor: handle_input_cursor(app, &rows[1]),
        messages: MessageList { title: "Messages".to_owned(), lines },
        messages_area: rows[2],
    }
}

/// The areas that the screen may be split into: one row of help, the input with
/// all its lines, and the messages below.
pub open spec fn screen_rows(app: App, area: Rect, rows: Seq<Rect>) -> bool {
    rows_of(
        area,
        MARGIN,
        HELP_HEIGHT,
        (app.text_area@.lines.len() % 65536 + BORDERS) as u16,
        MIN_MESSAGES_HEIGHT,
        rows,
    )
}

/// Lay the screen out and put everything on it, or give `None` where the cursor
/// would be at a cell that has no coordinates.
pub fn ui(app: &App, area: Rect) -> (screen: Option<Screen>)
    requires
        area.wf(),
        app.text_area@.lines.len() % 65536 + BORDERS <= u16::MAX,
    ensures
        exists|rows: Seq<Rect>| #[trigger]
            screen_rows(*app, area, rows) && {
                &&& screen is Some <==> (app.input_mode == InputMode::Editing ==> cursor_fits(
                    app.text_area.shown_cursor(),
                    rows[1],
                ))
                &&& screen matches Some(s) ==> is_composed(*app, rows, s)
            },
{
    let height: u16 = input_height(app.text_area.nlines());
    let rows = split_rows(area, MARGIN, HELP_HEIGHT, height, MIN_MESSAGES_HEIGHT);
    assert(screen_rows(*app, area, rows@));
    let fits = match app.input_mode {
        InputMode::Normal => true,
        InputMode::Editing => {
            let cursor = app.text_area.cursor_position();
            rows[1].x as u32 + low_u16(cursor.col) as u32 + 1 <= u16::MAX as u32
                && rows[1].y as u32 + low_u16(cursor.row) as u32 + 1 <= u16::MAX as u32
        },
    };
    if fits {
        Some(compose(app, &rows))
    } else {
        None
    }
}

/// Where the screen is high enough, the input is as high as its lines and its
/// frame, and the list of messages has at least a row.
pub proof fn law_input_shows_all_lines(app: App, area: Rect, rows: Seq<Rect>)
    requires
        area.wf(),
        screen_rows(app, area, rows),
        app.text_area@.lines.len() + BORDERS + HELP_HEIGHT + MIN_MESSAGES_HEIGHT + 2 * MARGIN
            <= area.height,
        2 * MARGIN <= area.width,
    ensures
        rows[1].height == app.text_area@.lines.len() + BORDERS,
        rows[2].height >= MIN_MESSAGES_HEIGHT,
{
}

/// On every screen, the help message takes up at most its row, and the input at
/// most the rows of its lines and its frame.
pub proof fn law_rows_no_higher_than_asked(app: App, area: Rect, rows: Seq<Rect>)
    requires
        area.wf(),
        app.text_area@.lines.len() % 65536 + BORDERS <= u16::MAX,
        screen_rows(app, area, rows),
    ensures
        rows[0].height <= HELP_HEIGHT,
        rows[1].height <= app.text_area@.lines.len() + BORDERS,
{
}

/// Where the screen is high enough, the cursor of a consistent text area in edit
/// mode is in a row between the upper and the lower edge of the input's frame.
pub proof fn law_cursor_between_edges(app: App, area: Rect, rows: Seq<Rect>)
    requires
        area.wf(),
        screen_rows(app, area, rows),
        app.text_area@.lines.len() + BORDERS + HELP_HEIGHT + MIN_MESSAGES_HEIGHT + 2 * MARGIN
            <= area.height,
        2 * MARGIN <= area.width,
        app.input_mode == InputMode::Editing,
    ensures
        app.wf() ==> {
            &&& shown_at(app.input_mode, app.text_area.shown_cursor(), rows[1]) matches Some(cell)
            &&& rows[1].y < cell.1 < rows[1].y + rows[1].height - 1
        },
{
}

/// In edit mode the cell of the cursor is inside the frame, as far from the frame's corner as its place in the text: a column for
/// each column of the text before it, and a row for each line above it.
pub proof fn law_cursor_shown_at_its_place(app: App, area: Rect)
    requires
        app.input_mode == InputMode::Editing,
        cursor_fits(app.text_area.shown_cursor(), area),
    ensures
        ({
            let cursor = app.text_area.shown_cursor();
            &&& shown_at(app.input_mode, cursor, area) matches Some(cell)
            &&& cell.0 > area.x
            &&& cell.1 > area.y
            &&& cursor.col < 65536 ==> cell.0 - area.x - 1 == cursor.col
            &&& cursor.row < 65536 ==> cell.1 - area.y - 1 == cursor.row
            &&& (cell.0 - area.x - 1 - cursor.col) % 65536 == 0
            &&& (cell.1 - area.y - 1 - cursor.row) % 65536 == 0
            &&& app.wf() && cursor.col < 65536 ==> cell.0 - area.x - 1
                == crate::columns::text_width(
                app.text_area@.line().take(app.text_area@.pos),
            )
            &&& app.wf() && cursor.row < 65536 ==> cell.1 - area.y - 1 == app.text_area@.row
        }),
{
}

/// In normal mode no cursor is shown, wherever it is.
pub proof fn law_cursor_hidden_in_normal_mode(cursor: CursorPosition, area: Rect)
    ensures
        shown_at(InputMode::Normal, cursor, area) is None,
        shown_at(InputMode::Editing, cursor, area) is Some,
{
}

/// A cursor has a cell where its place, counted from behind the frame's edges,
/// is on the grid.
pub proof fn law_cursor_fits(cursor: CursorPosition, area: Rect)
    requires
        cursor.col < 65536,
        cursor.row < 65536,
    ensures
        cursor_fits(cursor, area) <==> area.x + 1 + cursor.col < 65536 && area.y + 1 + cursor.row
            < 65536,
{
}

/// The spans of a help message, one after the other.
pub open spec fn read_aloud(spans: Seq<(Seq<char>, bool)>) -> Seq<char>
    decreases spans.len(),
{
    if spans.len() == 0 {
        Seq::empty()
    } else {
        read_aloud(spans.drop_last()) + spans.last().0
    }
}

/// What the help message says in each mode, and that in it the names of the two
/// keys are in bold and the words around them are not.
pub proof fn law_help_says(mode: InputMode)
    ensures
        mode is Normal ==> read_aloud(help_text(mode))
            == "Press q to exit, e to start editing."@,
        mode is Editing ==> read_aloud(help_text(mode))
            == "Press Esc to stop editing, Enter to record the message"@,
        help_text(mode).len() == 5,
        forall|i: int|
            0 <= i < help_text(mode).len() ==> (#[trigger] help_text(mode)[i]).1 == (i % 2 == 1),
        mode is Normal ==> help_text(mode)[1].0 == seq!['q'] && help_text(mode)[3].0 == seq!['e'],
        mode is Editing ==> help_text(mode)[1].0 == seq!['E', 's', 'c'] && help_text(mode)[3].0
            == seq!['E', 'n', 't', 'e', 'r'],
{
    reveal_strlit("Press ");
    reveal_strlit("q");
    reveal_strlit(" to exit, ");
    reveal_strlit("e");
    reveal_strlit(" to start editing.");
    reveal_strlit("Esc");
    reveal_strlit(" to stop editing, ");
    reveal_strlit("Enter");
    reveal_strlit(" to record the message");
    reveal_strlit("Press q to exit, e to start editing.");
    reveal_strlit("Press Esc to stop editing, Enter to record the message");
    let spans = help_text(mode);
    lemma_read_five(spans);
    let words = spans[0].0 + spans[1].0 + spans[2].0 + spans[3].0 + spans[4].0;
    if mode is Normal {
        assert(words =~= "Press q to exit, e to start editing."@);
        assert("q"@ =~= seq!['q']);
        assert("e"@ =~= seq!['e']);
    } else {
        assert(words =~= "Press Esc to stop editing, Enter to record the message"@);
        assert("Esc"@ =~= seq!['E', 's', 'c']);
        assert("Enter"@ =~= seq!['E', 'n', 't', 'e', 'r']);
    }
}

proof fn lemma_read_five(spans: Seq<(Seq<char>, bool)>)
    requires
        spans.len() == 5,
    ensures
        read_aloud(spans) == spans[0].0 + spans[1].0 + spans[2].0 + spans[3].0 + spans[4].0,
{
    reveal_with_fuel(read_aloud, 6);
    assert(read_aloud(spans) =~= spans[0].0 + spans[1].0 + spans[2].0 + spans[3].0
        + spans[4].0);
}

/// The screen shows every message, in the order in which they were recorded. Each
/// line starts with the name of the message's kind, has the time between the
/// brackets behind it, ends with the message's whole text, and has the colour of
/// the kind.
pub proof fn law_screen_shows_every_message(app: App, rows: Seq<Rect>, screen: Screen, i: int)
    requires
        is_composed(app, rows, screen),
        0 <= i < app.messages@.len(),
    ensures
        screen.messages.lines@.len() == app.messages@.len(),
        ({
            let line = screen.messages.lines@[i];
            let text = app.messages@[i].text@;
            let name = app.messages@[i].kind.spec_name().len() as int;
            let stamp = message::formatted_instant(app.messages@[i].ts@, message::stamp_pattern());
            &&& line.text@.len() == name + 4 + stamp.len() + text.len()
            &&& line.text@.subrange(name + 2, name + 2 + stamp.len()) == stamp
            &&& line.text@.skip(line.text@.len() - text.len()) == text
            &&& line.text@.take(app.messages@[i].kind.spec_name().len() as int)
                == app.messages@[i].kind.spec_name()
            &&& line.color == message::MessageColor::Default <==> app.messages@[i].kind is Status
        }),
{
    message::law_line_holds_whole_message(
        app.messages@[i].kind,
        message::formatted_instant(app.messages@[i].ts@, message::stamp_pattern()),
        app.messages@[i].text@,
    );
}

/// The screen shows the help of the mode, the whole text of the input in its
/// frame, and the cursor where it is in that frame. Each part has its own row.
pub proof fn law_screen_shows_input(app: App, rows: Seq<Rect>, screen: Screen)
    requires
        is_composed(app, rows, screen),
    ensures
        screen.help@.len() == help_text(app.input_mode).len(),
        forall|i: int|
            0 <= i < screen.help@.len() ==> (#[trigger] screen.help@[i]).text@ == help_text(
                app.input_mode,
            )[i].0 && screen.help@[i].bold == help_text(app.input_mode)[i].1,
        screen.input.title@ == "Input"@,
        screen.input.text@ == app@.text.content(),
        screen.messages.title@ == "Messages"@,
        screen.messages.lines@.len() == app.messages@.len(),
        app.input_mode is Normal ==> screen.cursor is None,
        app.input_mode is Editing && app.wf() && cursor_fits(
            app.text_area.shown_cursor(),
            rows[1],
        ) && app@.text.col() < 65536 && app@.text.row < 65536 ==> screen.cursor == Some(
            (
                (screen.input_area.x + 1 + app@.text.col()) as u16,
                (screen.input_area.y + 1 + app@.text.row) as u16,
            ),
        ),
        screen.help_area == rows[0],
        screen.input_area == rows[1],
        screen.messages_area == rows[2],
{
    let help = screen.help@.map_values(|span: Span| span@);
    assert forall|i: int| 0 <= i < screen.help@.len() implies (#[trigger] screen.help@[i]).text@
        == help_text(app.input_mode)[i].0 && screen.help@[i].bold == help_text(app.input_mode)[i].1 by {
        assert(help[i] == screen.help@[i]@);
    }
}

/// Where the screen is high enough, two cells are left free on every side. Inside
/// them, the first row is the help message's, the input is right below it, as
/// high as its lines and its frame, and the messages have all that is left.
pub proof fn law_rows_of_a_high_screen(app: App, area: Rect, rows: Seq<Rect>)
    requires
        area.wf(),
        screen_rows(app, area, rows),
        app.text_area@.lines.len() + 8 <= area.height,
        4 <= area.width,
    ensures
        forall|i: int|
            0 <= i < 3 ==> (#[trigger] rows[i]).x == area.x + 2 && rows[i].width == area.width - 4,
        rows[0].y == area.y + 2,
        rows[0].height == 1,
        rows[1].y == area.y + 3,
        rows[1].height == app.text_area@.lines.len() + 2,
        rows[2].y == area.y + 5 + app.text_area@.lines.len(),
        rows[2].height == area.height - 7 - app.text_area@.lines.len(),
{
}

/// On a screen without room for the margin, nothing has any room.
pub proof fn law_rows_of_a_tiny_screen(app: App, area: Rect, rows: Seq<Rect>)
    requires
        area.wf(),
        screen_rows(app, area, rows),
        area.width < 4 || area.height < 4,
    ensures
        rows.len() == 3,
        forall|i: int|
            0 <= i < 3 ==> #[trigger] rows[i] == (Rect { x: 0, y: 0, width: 0, height: 0 }),
{
}

/// On every screen that has room for the margin, the three rows are inside it,
/// one below the other, and leave nothing free between them.
pub proof fn law_rows_tile_the_screen(app: App, area: Rect, rows: Seq<Rect>)
    requires
        area.wf(),
        screen_rows(app, area, rows),
        4 <= area.height,
        4 <= area.width,
    ensures
        rows.len() == 3,
        forall|i: int|
            0 <= i < 3 ==> (#[trigger] rows[i]).x == area.x + 2 && rows[i].width == area.width - 4,
        rows[0].y == area.y + 2,
        rows[1].y == rows[0].y + rows[0].height,
        rows[2].y == rows[1].y + rows[1].height,
        rows[2].y + rows[2].height == area.y + area.height - 2,
{
}

} // verus!
