//! The key bindings.

use crate::app::{Action, App, AppState, InputMode};
use crate::columns;
use crate::text_area::Action as TextAreaAction;
use crate::text_state;
use vstd::prelude::*;

verus! {

/// A key on the keyboard. Modifiers that are held with it do not matter.
#[derive(Debug, Clone, Copy, PartialEq, Eq, Structural)]
pub enum KeyCode {
    Backspace,
    Enter,
    Left,
    Right,
    Up,
    Down,
    Home,
    End,
    PageUp,
    PageDown,
    Tab,
    BackTab,
    Delete,
    Insert,
    F(u8),
    Char(char),
    Null,
    Esc,
}

/// What the task that listens for keys waits for.
#[derive(Debug, Clone, Copy, PartialEq, Eq, Structural)]
pub enum ListenerEvent {
    /// The application is quitting.
    Quit,
    Key(KeyCode),
    Mouse,
    Resize,
}

/// What the task that listens for keys does next.
#[derive(Debug)]
pub enum ListenerStep {
    /// End.
    Stop,
    /// Send an action, then wait for the next event.
    Send(Action),
    /// Wait for the next event.
    Wait,
}

/// The binding of a key in edit mode.
pub open spec fn edit_action(key: KeyCode) -> Option<Action> {
    match key {
        KeyCode::Enter => Some(Action::Input(TextAreaAction::NewLine)),
        KeyCode::Backspace => Some(Action::Input(TextAreaAction::Backspace)),
        KeyCode::Esc => Some(Action::SetMode(InputMode::Normal)),
        KeyCode::Left => Some(Action::Input(TextAreaAction::MoveLeft)),
        KeyCode::Right => Some(Action::Input(TextAreaAction::MoveRight)),
        KeyCode::Up => Some(Action::Input(TextAreaAction::MoveUp)),
        KeyCode::Down => Some(Action::Input(TextAreaAction::MoveDown)),
        KeyCode::Home => Some(Action::Input(TextAreaAction::MoveHome)),
        KeyCode::End => Some(Action::Input(TextAreaAction::MoveEnd)),
        KeyCode::Char(c) => Some(Action::Input(TextAreaAction::NewChar(c))),
        _ => None,
    }
}

/// The binding of a key in normal mode.
pub open spec fn normal_action(key: KeyCode) -> Option<Action> {
    if key == KeyCode::Char('e') {
        Some(Action::SetMode(InputMode::Editing))
    } else if key == KeyCode::Char('q') {
        Some(Action::Quit)
    } else {
        None
    }
}

/// The binding of a key.
pub open spec fn key_action(mode: InputMode, key: KeyCode) -> Option<Action> {
    match mode {
        InputMode::Normal => normal_action(key),
        InputMode::Editing => edit_action(key),
    }
}

/// What the task that listens for keys does after an event.
pub open spec fn listener_step(mode: InputMode, event: ListenerEvent) -> ListenerStep {
    match event {
        ListenerEvent::Quit => ListenerStep::Stop,
        ListenerEvent::Key(key) => match key_action(mode, key) {
            Some(action) => ListenerStep::Send(action),
            None => ListenerStep::Wait,
        },
        ListenerEvent::Mouse => ListenerStep::Wait,
        ListenerEvent::Resize => ListenerStep::Wait,
    }
}

/// What pressing a key makes of the application.
pub open spec fn pressed(state: AppState, key: KeyCode) -> AppState {
    match key_action(state.mode, key) {
        Some(action) => state.step(action),
        None => state,
    }
}

/// Handle key inputs
pub fn get_action_from_key_event(key: KeyCode, app: &App) -> (action: Option<Action>)
    ensures
        action == key_action(app.input_mode, key),
{
    match app.input_mode {
        InputMode::Normal => handle_normal_input(key, app),
        InputMode::Editing => handle_edit_input(key, app),
    }
}

/// Handle key inputs in edit mode
pub fn handle_edit_input(key: KeyCode, _app: &App) -> (action: Option<Action>)
    ensures
        action == edit_action(key),
{
    match key {
        KeyCode::Enter => Some(Action::Input(TextAreaAction::NewLine)),
        KeyCode::Backspace => Some(Action::Input(TextAreaAction::Backspace)),
        KeyCode::Esc => Some(Action::SetMode(InputMode::Normal)),
        // Cursor movement
        KeyCode::Left => Some(Action::Input(TextAreaAction::MoveLeft)),
        KeyCode::Right => Some(Action::Input(TextAreaAction::MoveRight)),
        KeyCode::Up => Some(Action::Input(TextAreaAction::MoveUp)),
        KeyCode::Down => Some(Action::Input(TextAreaAction::MoveDown)),
        KeyCode::Home => Some(Action::Input(TextAreaAction::MoveHome)),
        KeyCode::End => Some(Action::Input(TextAreaAction::MoveEnd)),
        KeyCode::Char(c) => Some(Action::Input(TextAreaAction::NewChar(c))),
        _ => None,
    }
}

/// Handle key inputs in normal mode
pub fn handle_normal_input(key: KeyCode, _app: &App) -> (action: Option<Action>)
    ensures
        action == normal_action(key),
{
    match key {
        KeyCode::Char('e') => Some(Action::SetMode(InputMode::Editing)),
        KeyCode::Char('q') => Some(Action::Quit),
        _ => None,
    }
}

/// React to what the task that listens for keys waited for.
pub fn listen_for_keys(event: ListenerEvent, app: &App) -> (step: ListenerStep)
    ensures
        step == listener_step(app.input_mode, event),
{
    match event {
        ListenerEvent::Quit => ListenerStep::Stop,
        ListenerEvent::Key(key) => match get_action_from_key_event(key, app) {
            Some(action) => ListenerStep::Send(action),
            None => ListenerStep::Wait,
        },
        ListenerEvent::Mouse => ListenerStep::Wait,
        ListenerEvent::Resize => ListenerStep::Wait,
    }
}

/// In normal mode no key touches the text, and the letter q quits, as the help
/// says.
pub proof fn law_normal_mode_leaves_text_alone(state: AppState, key: KeyCode)
    requires
        state.mode == InputMode::Normal,
    ensures
        key_action(state.mode, key) matches Some(action) ==> state.step(action).text
            == state.text,
        key_action(state.mode, KeyCode::Char('q')) == Some(Action::Quit),
        key_action(state.mode, key) == Some(Action::Quit) ==> key == KeyCode::Char('q'),
{
}

/// In edit mode no key quits, and every character that is typed goes into the
/// text at the cursor.
pub proof fn law_edit_mode_types(state: AppState, key: KeyCode)
    requires
        state.mode == InputMode::Editing,
        state.text.wf(),
    ensures
        key_action(state.mode, key) != Some(Action::Quit),
        key matches KeyCode::Char(c) ==> {
            &&& key_action(state.mode, key) matches Some(action)
            &&& state.step(action).text.content() == state.text.content().insert(
                state.text.offset(),
                c,
            )
            &&& state.step(action).mode == InputMode::Editing
        },
{
    if let KeyCode::Char(c) = key {
        text_state::law_char_goes_in_at_cursor(state.text, c);
    }
}

/// Escape leaves edit mode and the letter e comes back to it, with everything as
/// it was.
pub proof fn law_escape_and_back(state: AppState)
    requires
        state.mode == InputMode::Editing,
    ensures
        key_action(state.mode, KeyCode::Esc) matches Some(leave) && {
            &&& state.step(leave).mode == InputMode::Normal
            &&& key_action(state.step(leave).mode, KeyCode::Char('e')) matches Some(back)
            &&& state.step(leave).step(back) == state
        },
{
    let leave = Action::SetMode(InputMode::Normal);
    let back = Action::SetMode(InputMode::Editing);
    assert(state.step(leave).step(back) =~= state);
}

/// Whatever key is pressed in whatever mode, messages and target stay, and the
/// cursor stays inside the text.
pub proof fn law_keys_leave_messages_alone(state: AppState, key: KeyCode)
    requires
        state.text.wf(),
    ensures
        pressed(state, key).messages == state.messages,
        pressed(state, key).target == state.target,
        pressed(state, key).text.wf(),
{
    if let Some(action) = key_action(state.mode, key) {
        crate::app::law_app_keeps_cursor_in_text(state, action);
    }
}

/// In edit mode, Enter breaks the line at the cursor, which goes to the start of
/// the new line.
pub proof fn law_enter_key(state: AppState)
    requires
        state.mode == InputMode::Editing,
        state.text.wf(),
    ensures
        ({
            let after = pressed(state, KeyCode::Enter);
            &&& after.mode == InputMode::Editing
            &&& after.text.content() == state.text.content().insert(state.text.offset(), '\n')
            &&& after.text.lines.len() == state.text.lines.len() + 1
            &&& after.text.row == state.text.row + 1
            &&& after.text.pos == 0
        }),
{
    text_state::law_new_line_goes_in_at_cursor(state.text);
    text_state::law_new_line_splits_its_line(state.text);
}

/// In edit mode, Backspace takes the character before the cursor out of the text.
pub proof fn law_backspace_key(state: AppState)
    requires
        state.mode == InputMode::Editing,
        state.text.wf(),
    ensures
        ({
            let after = pressed(state, KeyCode::Backspace);
            &&& after.mode == InputMode::Editing
            &&& state.text.offset() > 0 ==> after.text.content() == state.text.content().remove(
                state.text.offset() - 1,
            ) && after.text.offset() == state.text.offset() - 1
            &&& state.text.offset() == 0 ==> after.text == state.text
        }),
{
    text_state::law_backspace_takes_out_before_cursor(state.text);
}

/// In edit mode, a letter, digit or other character comes into the text at the
/// cursor, which goes behind it.
pub proof fn law_character_key(state: AppState, c: char)
    requires
        state.mode == InputMode::Editing,
        state.text.wf(),
    ensures
        ({
            let after = pressed(state, KeyCode::Char(c));
            &&& after.mode == InputMode::Editing
            &&& after.text.content() == state.text.content().insert(state.text.offset(), c)
            &&& after.text.offset() == state.text.offset() + 1
            &&& after.text.lines.len() == state.text.lines.len()
            &&& after.text.row == state.text.row
            &&& after.text.pos == state.text.pos + 1
        }),
{
    text_state::law_char_goes_in_at_cursor(state.text, c);
    text_state::law_char_in_its_line(state.text, c);
}

/// In edit mode, Left, Right, Home and End move the cursor in its line: by one
/// character, where there is one to go over, or to the line's start or end.
pub proof fn law_keys_in_the_line(state: AppState, key: KeyCode)
    requires
        state.mode == InputMode::Editing,
        state.text.wf(),
        key == KeyCode::Left || key == KeyCode::Right || key == KeyCode::Home || key
            == KeyCode::End,
    ensures
        pressed(state, key).mode == InputMode::Editing,
        pressed(state, key).text.lines == state.text.lines,
        pressed(state, key).text.row == state.text.row,
        key == KeyCode::Home ==> pressed(state, key).text.pos == 0,
        key == KeyCode::End ==> pressed(state, key).text.pos == state.text.line().len(),
        key == KeyCode::Left && state.text.pos > 0 ==> pressed(state, key).text.pos
            == state.text.pos - 1,
        key == KeyCode::Left && state.text.pos == 0 ==> pressed(state, key).text.pos == 0,
        key == KeyCode::Right && state.text.pos < state.text.line().len() ==> pressed(
            state,
            key,
        ).text.pos == state.text.pos + 1,
        key == KeyCode::Right && state.text.pos == state.text.line().len() ==> pressed(
            state,
            key,
        ).text.pos == state.text.pos,
{
    text_state::law_horizontal_steps(state.text);
    text_state::law_home_and_end(state.text);
}

/// In edit mode, Up and Down move the cursor to the next row above or below, onto
/// the character that is in its column there, or to the end of a shorter line.
/// At the first and at the last row they change nothing.
pub proof fn law_keys_between_lines(state: AppState, key: KeyCode)
    requires
        state.mode == InputMode::Editing,
        state.text.wf(),
        key == KeyCode::Up || key == KeyCode::Down,
    ensures
        pressed(state, key).mode == InputMode::Editing,
        pressed(state, key).text.lines == state.text.lines,
        key == KeyCode::Up && state.text.row == 0 ==> pressed(state, key).text == state.text,
        key == KeyCode::Down && state.text.row == state.text.lines.len() - 1 ==> pressed(
            state,
            key,
        ).text == state.text,
        key == KeyCode::Up && state.text.row > 0 ==> pressed(state, key).text.row
            == state.text.row - 1,
        key == KeyCode::Down && state.text.row < state.text.lines.len() - 1 ==> pressed(
            state,
            key,
        ).text.row == state.text.row + 1,
        pressed(state, key).text.row != state.text.row ==> {
            let after = pressed(state, key).text;
            &&& 0 <= after.pos <= after.line().len()
            &&& after.pos < after.line().len() ==> columns::occupies(
                after.line(),
                state.text.col(),
                after.pos,
            )
            &&& after.pos == after.line().len() ==> columns::text_width(after.line())
                <= state.text.col()
        },
{
    text_state::law_vertical_ends(state.text);
    if key == KeyCode::Up && state.text.row > 0 {
        text_state::law_vertical_movement(state.text, TextAreaAction::MoveUp);
    }
    if key == KeyCode::Down && state.text.row < state.text.lines.len() - 1 {
        text_state::law_vertical_movement(state.text, TextAreaAction::MoveDown);
    }
}

/// In edit mode, Escape, and no other key, changes the mode. It leaves the text
/// alone.
pub proof fn law_only_escape_leaves_edit_mode(state: AppState, key: KeyCode)
    requires
        state.mode == InputMode::Editing,
    ensures
        pressed(state, key).mode == InputMode::Normal <==> key == KeyCode::Esc,
        pressed(state, KeyCode::Esc).text == state.text,
{
}

/// In normal mode, the letter e, and no other key, changes anything: it starts
/// editing.
pub proof fn law_only_e_starts_editing(state: AppState, key: KeyCode)
    requires
        state.mode == InputMode::Normal,
    ensures
        pressed(state, key).text == state.text,
        pressed(state, key).mode == InputMode::Editing <==> key == KeyCode::Char('e'),
        key != KeyCode::Char('e') ==> pressed(state, key) == state,
{
}

/// The letter q in normal mode, and no other key in any mode, stops the
/// application.
pub proof fn law_only_q_stops(mode: InputMode, key: KeyCode)
    ensures
        (key_action(mode, key) matches Some(action) && crate::app::flow_after(action)
            == crate::app::Flow::Stop) <==> (mode == InputMode::Normal && key == KeyCode::Char('q')),
{
}

/// No key makes up a message, and the other keys do nothing.
pub proof fn law_bound_keys(mode: InputMode, key: KeyCode)
    ensures
        key_action(mode, key) matches Some(action) ==> !(action is NewMessage),
        key_action(InputMode::Normal, key) is Some <==> key == KeyCode::Char('e') || key
            == KeyCode::Char('q'),
        key_action(InputMode::Editing, key) is None <==> {
            ||| key is PageUp
            ||| key is PageDown
            ||| key is Tab
            ||| key is BackTab
            ||| key is Delete
            ||| key is Insert
            ||| key is F
            ||| key is Null
        },
{
}

/// The listener stops on the signal to quit and on nothing else, sends exactly
/// what a key is bound to, and sends nothing on anything but a key.
pub proof fn law_listener(mode: InputMode, event: ListenerEvent)
    ensures
        listener_step(mode, event) is Stop <==> event is Quit,
        listener_step(mode, event) matches ListenerStep::Send(action) ==> event is Key
            && key_action(mode, event->Key_0) == Some(action),
        event is Key && key_action(mode, event->Key_0) is Some ==> listener_step(
            mode,
            event,
        ) is Send,
{
}

} // verus!
