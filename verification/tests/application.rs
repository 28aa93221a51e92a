use wstui::app::{new_status_msg_action, server_address, Action, App, Flow, InputMode};
use wstui::connection::{connect_to_server, ConnectionEvent, ConnectionStep, TIMEOUT_SECS};
use wstui::decimal::decimal;
use wstui::keys::{
    get_action_from_key_event, handle_edit_input, handle_normal_input, listen_for_keys, KeyCode,
    ListenerEvent, ListenerStep,
};
use wstui::message::{format_message, format_stamped, Message, MessageColor, MessageKind, Timestamp};
use wstui::text_area::Action as TextAreaAction;

fn app() -> App {
    App::try_new("localhost", 8080).unwrap()
}

fn press(app: &mut App, key: KeyCode) -> Option<Flow> {
    match get_action_from_key_event(key, app) {
        Some(action) => Some(app.update_state(action)),
        None => None,
    }
}

#[test]
fn decimal_notation() {
    assert_eq!(decimal(0), "0");
    assert_eq!(decimal(7), "7");
    assert_eq!(decimal(10), "10");
    assert_eq!(decimal(65535), "65535");
    assert_eq!(decimal(u64::MAX), "18446744073709551615");
}

#[test]
fn new_app_is_ready_for_editing() {
    let app = App::new("localhost", 8080);
    assert_eq!(app.target, "ws://localhost:8080/");
    assert_eq!(app.input_mode, InputMode::Editing);
    assert_eq!(app.messages.len(), 0);
    assert_eq!(app.text_area.content(), "");
    assert_eq!(server_address("localhost", 8080), "ws://localhost:8080");
}

#[test]
fn target_is_normalized() {
    assert_eq!(App::try_new("EXAMPLE.org", 80).unwrap().target, "ws://example.org/");
    assert_eq!(App::with_target(String::from("ws://x/")).target, "ws://x/");
}

#[test]
fn address_that_is_no_url_is_refused() {
    assert!(App::try_new("not a host", 1).is_none());
    assert!(App::try_new("", 1).is_none());
}

#[test]
fn edit_mode_bindings() {
    let input = |key| match handle_edit_input(key, &app()) {
        Some(Action::Input(action)) => Some(action),
        _ => None,
    };
    assert_eq!(input(KeyCode::Enter), Some(TextAreaAction::NewLine));
    assert_eq!(input(KeyCode::Backspace), Some(TextAreaAction::Backspace));
    assert_eq!(input(KeyCode::Left), Some(TextAreaAction::MoveLeft));
    assert_eq!(input(KeyCode::Right), Some(TextAreaAction::MoveRight));
    assert_eq!(input(KeyCode::Up), Some(TextAreaAction::MoveUp));
    assert_eq!(input(KeyCode::Down), Some(TextAreaAction::MoveDown));
    assert_eq!(input(KeyCode::Home), Some(TextAreaAction::MoveHome));
    assert_eq!(input(KeyCode::End), Some(TextAreaAction::MoveEnd));
    assert_eq!(input(KeyCode::Char('q')), Some(TextAreaAction::NewChar('q')));
    assert!(matches!(handle_edit_input(KeyCode::Esc, &app()), Some(Action::SetMode(InputMode::Normal))));
    assert!(handle_edit_input(KeyCode::Tab, &app()).is_none());
    assert!(handle_edit_input(KeyCode::F(1), &app()).is_none());
    assert!(handle_edit_input(KeyCode::Delete, &app()).is_none());
}

#[test]
fn normal_mode_bindings() {
    assert!(matches!(handle_normal_input(KeyCode::Char('q'), &app()), Some(Action::Quit)));
    assert!(matches!(
        handle_normal_input(KeyCode::Char('e'), &app()),
        Some(Action::SetMode(InputMode::Editing))
    ));
    assert!(handle_normal_input(KeyCode::Char('x'), &app()).is_none());
    assert!(handle_normal_input(KeyCode::Enter, &app()).is_none());
    assert!(handle_normal_input(KeyCode::Esc, &app()).is_none());
}

#[test]
fn normal_mode_leaves_text_alone() {
    let mut app = app();
    press(&mut app, KeyCode::Char('a'));
    press(&mut app, KeyCode::Esc);
    for key in [KeyCode::Char('x'), KeyCode::Backspace, KeyCode::Enter, KeyCode::Left] {
        assert!(press(&mut app, key).is_none());
    }
    assert_eq!(app.text_area.content(), "a");
    assert_eq!(press(&mut app, KeyCode::Char('q')), Some(Flow::Stop));
}

#[test]
fn edit_mode_types_every_character() {
    let mut app = app();
    for c in "quit?".chars() {
        assert_eq!(press(&mut app, KeyCode::Char(c)), Some(Flow::Redraw));
    }
    press(&mut app, KeyCode::Enter);
    press(&mut app, KeyCode::Char('n'));
    assert_eq!(app.text_area.content(), "quit?\nn");
    assert_eq!(app.input_mode, InputMode::Editing);
}

#[test]
fn escape_and_back() {
    let mut app = app();
    press(&mut app, KeyCode::Char('a'));
    assert_eq!(press(&mut app, KeyCode::Esc), Some(Flow::Redraw));
    assert_eq!(app.input_mode, InputMode::Normal);
    press(&mut app, KeyCode::Char('e'));
    assert_eq!(app.input_mode, InputMode::Editing);
    assert_eq!(app.text_area.content(), "a");
}

#[test]
fn listener_reacts_to_events() {
    let app = app();
    assert!(matches!(listen_for_keys(ListenerEvent::Quit, &app), ListenerStep::Stop));
    assert!(matches!(listen_for_keys(ListenerEvent::Mouse, &app), ListenerStep::Wait));
    assert!(matches!(listen_for_keys(ListenerEvent::Resize, &app), ListenerStep::Wait));
    assert!(matches!(
        listen_for_keys(ListenerEvent::Key(KeyCode::PageUp), &app),
        ListenerStep::Wait
    ));
    assert!(matches!(
        listen_for_keys(ListenerEvent::Key(KeyCode::Char('a')), &app),
        ListenerStep::Send(Action::Input(TextAreaAction::NewChar('a')))
    ));
}

#[test]
fn history_only_grows() {
    let mut app = app();
    assert_eq!(app.update_state(new_status_msg_action(String::from("one"))), Flow::Redraw);
    app.update_state(Action::Input(TextAreaAction::NewChar('x')));
    app.update_state(new_status_msg_action(String::from("two")));
    app.update_state(Action::SetMode(InputMode::Normal));
    assert_eq!(app.update_state(Action::Quit), Flow::Stop);
    assert_eq!(app.messages.len(), 2);
    assert_eq!(app.messages[0].text, "one");
    assert_eq!(app.messages[1].text, "two");
    assert_eq!(app.messages[1].kind, MessageKind::Status);
    assert_eq!(app.target, "ws://localhost:8080/");
    assert_eq!(app.text_area.content(), "x");
}

#[test]
fn update_of_inconsistent_state_is_refused() {
    let mut app = app();
    assert_eq!(app.try_update_state(Action::SetMode(InputMode::Normal)), Some(Flow::Redraw));
    app.text_area.cursor.row = 5;
    assert_eq!(app.try_update_state(Action::Quit), None);
    assert_eq!(app.input_mode, InputMode::Normal);
}

#[test]
fn status_of_a_connection() {
    let order = |event| connect_to_server("ws://localhost:8080/", &event);
    let requested = order(ConnectionEvent::Requested);
    assert_eq!(requested.status, "Connecting to ws://localhost:8080/");
    assert_eq!(requested.step, ConnectionStep::Open { timeout_secs: 3 });
    let established = order(ConnectionEvent::Established);
    assert_eq!(established.status, "Connection established!");
    assert_eq!(established.step, ConnectionStep::Succeed);
    let failed = order(ConnectionEvent::Failed(String::from("refused")));
    assert_eq!(failed.status, "Error connecting to server: refused");
    assert_eq!(failed.step, ConnectionStep::Fail);
    let late = order(ConnectionEvent::TimedOut(String::from("deadline has elapsed")));
    assert_eq!(late.status, "Timed out after 3 seconds: deadline has elapsed");
    assert_eq!(late.step, ConnectionStep::Fail);
    assert_eq!(TIMEOUT_SECS, 3);
}

#[test]
fn message_lines() {
    // 2022-03-04 05:06:07. The pattern repeats the month after the hour.
    let ts = Timestamp::from_local_seconds(1646370367).unwrap();
    let line = format_message(&Message::at(ts, String::from("hi"), MessageKind::Inbound));
    assert_eq!(line.text, "Inbound [2022-03-04 05:03:07] hi");
    assert_eq!(line.color, MessageColor::Green);
    let line = format_message(&Message::at(ts, String::from("ho"), MessageKind::Outbound));
    assert_eq!(line.text, "Outbound [2022-03-04 05:03:07] ho");
    assert_eq!(line.color, MessageColor::Green);
    let line = format_stamped(MessageKind::Status, "then", "up");
    assert_eq!(line.text, "Status [then] up");
    assert_eq!(line.color, MessageColor::Default);
    assert_eq!(ts.format("%H.%M"), "05.06");
}

#[test]
fn calendar_covers_exactly_its_years() {
    let first = chrono::DateTime::<chrono::Utc>::MIN_UTC.timestamp();
    let last = chrono::DateTime::<chrono::Utc>::MAX_UTC.timestamp();
    assert!(Timestamp::from_local_seconds(first - 1).is_none());
    assert!(Timestamp::from_local_seconds(last + 1).is_none());
    let first = Timestamp::from_local_seconds(first).unwrap();
    let last = Timestamp::from_local_seconds(last).unwrap();
    assert_eq!(first.format("%Y-%m-%d %H:%M:%S"), "-262143-01-01 00:00:00");
    assert_eq!(last.format("%Y-%m-%d %H:%M:%S"), "+262142-12-31 23:59:59");
}

#[test]
fn message_is_recorded_now() {
    let before = chrono::Local::now().format("%Y").to_string();
    let message = Message::new(String::from("text"), MessageKind::Outbound);
    let after = chrono::Local::now().format("%Y").to_string();
    assert_eq!(message.text, "text");
    assert_eq!(message.kind, MessageKind::Outbound);
    let year = message.ts.format("%Y");
    assert!(year == before || year == after);
}
