use wstui::app::{Action, App, InputMode};
use wstui::message::{Message, MessageColor, MessageKind, Timestamp};
use wstui::text_area::Action as TextAreaAction;
use wstui::ui::{compose, create_help_message, handle_input_cursor, input_height, ui, Rect, Span};

fn app() -> App {
    App::with_target(String::from("ws://localhost/"))
}

fn area(width: u16, height: u16) -> Rect {
    Rect { x: 0, y: 0, width, height }
}

fn spans(help: &[Span]) -> Vec<(&str, bool)> {
    help.iter().map(|span| (span.text.as_str(), span.bold)).collect()
}

#[test]
fn height_of_the_input() {
    assert_eq!(input_height(1), 3);
    assert_eq!(input_height(65533), 65535);
    assert_eq!(input_height(65536), 2);
    assert_eq!(input_height(65537), 3);
}

#[test]
fn help_names_the_keys() {
    let mut app = app();
    assert_eq!(
        spans(&create_help_message(&app)),
        vec![
            ("Press ", false),
            ("Esc", true),
            (" to stop editing, ", false),
            ("Enter", true),
            (" to record the message", false),
        ]
    );
    app.input_mode = InputMode::Normal;
    assert_eq!(
        spans(&create_help_message(&app)),
        vec![
            ("Press ", false),
            ("q", true),
            (" to exit, ", false),
            ("e", true),
            (" to start editing.", false),
        ]
    );
}

#[test]
fn cursor_is_inside_the_frame() {
    let mut app = app();
    for c in ['a', '語'] {
        app.update_state(Action::Input(TextAreaAction::NewLine));
        app.update_state(Action::Input(TextAreaAction::NewChar(c)));
    }
    let frame = Rect { x: 10, y: 20, width: 30, height: 5 };
    assert_eq!(handle_input_cursor(&app, &frame), Some((13, 23)));
    app.input_mode = InputMode::Normal;
    assert_eq!(handle_input_cursor(&app, &frame), None);
}

#[test]
fn screen_of_an_app() {
    let mut app = app();
    let ts = Timestamp::from_local_seconds(0).unwrap();
    app.update_state(Action::NewMessage(Message::at(ts, String::from("up"), MessageKind::Status)));
    app.update_state(Action::NewMessage(Message::at(ts, String::from("hi"), MessageKind::Inbound)));
    app.update_state(Action::Input(TextAreaAction::NewChar('x')));
    app.update_state(Action::Input(TextAreaAction::NewLine));
    let screen = ui(&app, area(80, 24)).unwrap();
    assert_eq!(screen.help.len(), 5);
    assert_eq!(screen.help_area, Rect { x: 2, y: 2, width: 76, height: 1 });
    assert_eq!(screen.input.title, "Input");
    assert_eq!(screen.input.text, "x\n");
    assert_eq!(screen.input_area, Rect { x: 2, y: 3, width: 76, height: 4 });
    assert_eq!(screen.cursor, Some((3, 5)));
    assert_eq!(screen.messages.title, "Messages");
    assert_eq!(screen.messages_area, Rect { x: 2, y: 7, width: 76, height: 15 });
    assert_eq!(screen.messages.lines.len(), 2);
    assert_eq!(screen.messages.lines[0].text, "Status [1970-01-01 00:01:00] up");
    assert_eq!(screen.messages.lines[0].color, MessageColor::Default);
    assert_eq!(screen.messages.lines[1].text, "Inbound [1970-01-01 00:01:00] hi");
    assert_eq!(screen.messages.lines[1].color, MessageColor::Green);
}

#[test]
fn rows_fill_the_screen_from_top_to_bottom() {
    let mut app = app();
    for nlines in 1..12u16 {
        for height in 0..30u16 {
            for width in [0u16, 3, 4, 5, 80] {
                let at = Rect { x: 3, y: 7, width, height };
                let screen = ui(&app, at).unwrap();
                let rows = [screen.help_area, screen.input_area, screen.messages_area];
                let inner = if width < 4 || height < 4 {
                    area(0, 0)
                } else {
                    Rect { x: 5, y: 9, width: width - 4, height: height - 4 }
                };
                for row in rows {
                    assert_eq!(row.x, inner.x);
                    assert_eq!(row.width, inner.width);
                }
                assert_eq!(rows[0].y, inner.y);
                assert_eq!(rows[1].y, rows[0].y + rows[0].height);
                assert_eq!(rows[2].y, rows[1].y + rows[1].height);
                assert_eq!(rows[2].y + rows[2].height, inner.y + inner.height);
                if nlines + 4 <= inner.height {
                    assert_eq!(rows[0].height, 1);
                    assert_eq!(rows[1].height, nlines + 2);
                } else {
                    assert!(rows[0].height <= 1);
                    assert!(rows[1].height <= nlines + 2);
                    assert!(rows[2].height <= 1);
                }
            }
        }
        app.update_state(Action::Input(TextAreaAction::NewLine));
    }
}

#[test]
fn long_input_on_low_and_high_screens() {
    let mut app = app();
    for _ in 1..300 {
        app.update_state(Action::Input(TextAreaAction::NewLine));
    }
    for height in [8u16, 50, 100, 307, 308, 1000, 65535] {
        let screen = ui(&app, area(80, height)).unwrap();
        let rows = [screen.help_area, screen.input_area, screen.messages_area];
        assert_eq!(rows[0].y, 2);
        assert_eq!(rows[1].y, rows[0].y + rows[0].height);
        assert_eq!(rows[2].y, rows[1].y + rows[1].height);
        assert_eq!(rows[2].y + rows[2].height, height - 2);
        if height >= 308 {
            assert_eq!(rows[0].height, 1);
            assert_eq!(rows[1].height, 302);
        } else {
            assert!(rows[0].height <= 1);
            assert!(rows[1].height <= 302);
            assert!(rows[2].height <= 1);
        }
    }
}

#[test]
fn cursor_without_a_cell_leaves_nothing_to_show() {
    let mut app = app();
    app.text_area.cursor.col = 65533;
    assert!(ui(&app, area(80, 24)).is_none());
    app.text_area.cursor.col = 65532;
    assert_eq!(ui(&app, area(80, 24)).unwrap().cursor, Some((65535, 4)));
    app.text_area.cursor.col = 65536;
    assert_eq!(ui(&app, area(80, 24)).unwrap().cursor, Some((3, 4)));
    app.text_area.cursor.col = 65533;
    app.input_mode = InputMode::Normal;
    assert_eq!(ui(&app, area(80, 24)).unwrap().cursor, None);
}

#[test]
fn compose_uses_the_given_areas() {
    let rows = vec![
        Rect { x: 0, y: 0, width: 9, height: 1 },
        Rect { x: 0, y: 1, width: 9, height: 3 },
        Rect { x: 0, y: 4, width: 9, height: 5 },
    ];
    let screen = compose(&app(), &rows);
    assert_eq!(screen.help_area, rows[0]);
    assert_eq!(screen.input_area, rows[1]);
    assert_eq!(screen.messages_area, rows[2]);
    assert_eq!(screen.cursor, Some((1, 2)));
    assert_eq!(screen.messages.lines.len(), 0);
}
