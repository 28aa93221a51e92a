//! The state of the application and how actions change it.

use crate::decimal;
use crate::message::{Message, MessageKind};
use crate::text_area::Action as TextAreaAction;
use crate::text_area::TextArea;
use crate::text_state::TextState;
use vstd::prelude::*;
use vstd::string::*;

verus! {

#[derive(Debug, Clone, Copy, PartialEq, Eq, Structural)]
pub enum InputMode {
    Normal,
    Editing,
}

/// An action the app can take
#[derive(Debug)]
pub enum Action {
    Quit,
    Input(TextAreaAction),
    NewMessage(Message),
    SetMode(InputMode),
}

/// What the task that updates the state does after an action.
#[derive(Debug, Clone, Copy, PartialEq, Eq, Structural)]
pub enum Flow {
    /// Tell the other tasks to end, and end.
    Stop,
    /// Draw the state and wait for the next action.
    Redraw,
}

/// App holds the state of the application
#[derive(Debug)]
pub struct App {
    /// Text input area
    pub text_area: TextArea,
    /// Current input mode
    pub input_mode: InputMode,
    /// History of recorded messages
    pub messages: Vec<Message>,
    /// Target server to connect to
    pub target: String,
}

/// What the application is, as a mathematical object.
#[verifier::ext_equal]
pub struct AppState {
    pub text: TextState,
    pub mode: InputMode,
    pub messages: Seq<Message>,
    pub target: Seq<char>,
}

impl AppState {
    /// The application at its start: an empty input, ready for editing, and no
    /// messages.
    pub open spec fn initial(target: Seq<char>) -> AppState {
        AppState {
            text: TextState::blank(),
            mode: InputMode::Editing,
            messages: Seq::empty(),
            target,
        }
    }

    /// What an action makes of the application.
    pub open spec fn step(self, action: Action) -> AppState {
        match action {
            Action::Quit => self,
            Action::Input(input) => AppState { text: self.text.step(input), ..self },
            Action::NewMessage(message) => AppState {
                messages: self.messages.push(message),
                ..self
            },
            Action::SetMode(mode) => AppState { mode, ..self },
        }
    }
}

impl View for App {
    type V = AppState;

    open spec fn view(&self) -> AppState {
        AppState {
            text: self.text_area@,
            mode: self.input_mode,
            messages: self.messages@,
            target: self.target@,
        }
    }
}

/// What comes after an action.
pub open spec fn flow_after(action: Action) -> Flow {
    if action is Quit {
        Flow::Stop
    } else {
        Flow::Redraw
    }
}

/// The text of the address of a server.
pub open spec fn address_text(host: Seq<char>, port: u16) -> Seq<char> {
    "ws://"@ + host + ":"@ + decimal::decimal_text(port as nat)
}

/// The serialization of the URL that a text is parsed into, or `None` if it is
/// not an absolute URL.
pub uninterp spec fn parsed_url(text: Seq<char>) -> Option<Seq<char>>;

/// Calls `Url::parse` of the crate `url`.
///
/// Trusted: whether there is a URL, and its serialization, are functions of the
/// text alone, which `parsed_url` names.
#[verifier::external_body]
fn parse_url(text: &str) -> (url: Option<String>)
    ensures
        url is Some <==> parsed_url(text@) is Some,
        url matches Some(u) ==> parsed_url(text@) == Some(u@),
{
    match url::Url::parse(text) {
        Ok(url) => Some(String::from(url)),
        Err(_) => None,
    }
}

/// The text of the address of a server.
pub fn server_address(host: &str, port: u16) -> (address: String)
    ensures
        address@ == address_text(host@, port),
{
    let mut address = "ws://".to_owned();
    address.append(host);
    address.append(":");
    address.append(decimal::decimal(port as u64).as_str());
    address
}

impl App {
    /// The text input area is consistent.
    pub open spec fn wf(&self) -> bool {
        self.text_area.wf()
    }

    /// The application for a server whose address is a URL.
    pub fn new(host: &str, port: u16) -> (app: Self)
        requires
            parsed_url(address_text(host@, port)) is Some,
        ensures
            app.wf(),
            app@ == AppState::initial(parsed_url(address_text(host@, port))->0),
    {
        let address = server_address(host, port);
        App::with_target(parse_url(address.as_str()).unwrap())
    }

    /// The application for a server, or `None` if its address is not a URL.
    pub fn try_new(host: &str, port: u16) -> (app: Option<Self>)
        ensures
            app is Some <==> parsed_url(address_text(host@, port)) is Some,
            app matches Some(a) ==> a.wf() && a@ == AppState::initial(
                parsed_url(address_text(host@, port))->0,
            ),
    {
        let address = server_address(host, port);
        match parse_url(address.as_str()) {
            Some(_) => Some(App::new(host, port)),
            None => None,
        }
    }

    /// The application for the server at the URL `target`.
    pub fn with_target(target: String) -> (app: Self)
        ensures
            app.wf(),
            app@ == AppState::initial(target@),
    {
        let app = App {
            text_area: TextArea::new(),
            input_mode: InputMode::Editing,
            messages: Vec::new(),
            target,
        };
        assert(app@ =~= AppState::initial(target@));
        app
    }

    /// Update the state from an action (like a reducer), and say how to go on.
    pub fn update_state(&mut self, action: Action) -> (flow: Flow)
        requires
            old(self).wf(),
        ensures
            final(self).wf(),
            final(self)@ == old(self)@.step(action),
            flow == flow_after(action),
    {
        match action {
            Action::Quit => {
                return Flow::Stop;
            },
            Action::Input(input_action) => self.text_area.update(input_action),
            Action::NewMessage(message) => self.messages.push(message),
            Action::SetMode(mode) => {
                self.input_mode = mode;
            },
        }
        Flow::Redraw
    }

    /// Update the state from an action where the text input area is consistent,
    /// and do nothing otherwise.
    pub fn try_update_state(&mut self, action: Action) -> (flow: Option<Flow>)
        ensures
            flow is Some <==> old(self).wf(),
            flow matches Some(f) ==> {
                &&& final(self).wf()
                &&& final(self)@ == old(self)@.step(action)
                &&& f == flow_after(action)
            },
            flow is None ==> *final(self) == *old(self),
    {
        if self.text_area.is_consistent() {
            Some(self.update_state(action))
        } else {
            None
        }
    }
}

/// The action that records an update about the state of the connection.
pub fn new_status_msg_action(text: String) -> (action: Action)
    ensures
        action matches Action::NewMessage(message) && message.text == text && message.kind
            == MessageKind::Status && crate::message::in_calendar(message.ts@),
{
    Action::NewMessage(Message::new(text, MessageKind::Status))
}

/// The history only grows: every message that was recorded stays where it is.
pub proof fn law_history_only_grows(state: AppState, action: Action)
    ensures
        state.messages.is_prefix_of(state.step(action).messages),
        state.step(action).messages.len() == state.messages.len() + if action is NewMessage {
            1int
        } else {
            0int
        },
{
    assert(state.messages =~= state.step(action).messages.take(state.messages.len() as int));
}

/// The target server never changes.
pub proof fn law_target_is_fixed(state: AppState, action: Action)
    ensures
        state.step(action).target == state.target,
{
}

/// Only input changes the text, and only setting the mode changes the mode.
pub proof fn law_actions_are_separate(state: AppState, action: Action)
    ensures
        !(action is Input) ==> state.step(action).text == state.text,
        !(action is SetMode) ==> state.step(action).mode == state.mode,
        !(action is NewMessage) ==> state.step(action).messages == state.messages,
{
}

/// No action takes the cursor out of the text.
pub proof fn law_app_keeps_cursor_in_text(state: AppState, action: Action)
    requires
        state.text.wf(),
    ensures
        state.step(action).text.wf(),
{
    if action is Input {
        crate::text_state::law_step_keeps_wf(state.text, action->Input_0);
    }
}

/// The application starts with an input of one empty line, ready for editing,
/// without messages, and with the target it was given.
pub proof fn law_initial_state(target: Seq<char>)
    ensures
        AppState::initial(target).text.lines.len() == 1,
        AppState::initial(target).text.lines[0].len() == 0,
        AppState::initial(target).text.row == 0,
        AppState::initial(target).text.pos == 0,
        AppState::initial(target).mode == InputMode::Editing,
        AppState::initial(target).messages.len() == 0,
        AppState::initial(target).target == target,
{
}

/// Input does to the text of the application what it does to a text area, and
/// nothing to the rest.
pub proof fn law_input_goes_to_text(state: AppState, input: TextAreaAction)
    ensures
        state.step(Action::Input(input)).text == state.text.step(input),
        state.step(Action::Input(input)).mode == state.mode,
        state.step(Action::Input(input)).messages == state.messages,
        state.step(Action::Input(input)).target == state.target,
{
}

/// A new message becomes the last of the history, and nothing else changes.
pub proof fn law_new_message_is_last(state: AppState, message: Message)
    ensures
        ({
            let after = state.step(Action::NewMessage(message));
            &&& after.messages.len() == state.messages.len() + 1
            &&& after.messages.last() == message
            &&& after.messages.drop_last() == state.messages
            &&& after.text == state.text
            &&& after.mode == state.mode
            &&& after.target == state.target
        }),
{
    assert(state.step(Action::NewMessage(message)).messages.drop_last() =~= state.messages);
}

/// The mode becomes the one that is set, and nothing else changes.
pub proof fn law_mode_is_set(state: AppState, mode: InputMode)
    ensures
        state.step(Action::SetMode(mode)).mode == mode,
        state.step(Action::SetMode(mode)).text == state.text,
        state.step(Action::SetMode(mode)).messages == state.messages,
        state.step(Action::SetMode(mode)).target == state.target,
{
}

/// Quitting, and nothing else, stops the application. It changes nothing.
pub proof fn law_only_quit_stops(state: AppState, action: Action)
    ensures
        flow_after(action) == Flow::Stop <==> action is Quit,
        flow_after(action) == Flow::Stop ==> state.step(action) == state,
{
}

/// The address of a server is the scheme of web sockets, the whole host, a colon
/// and the port: reading the rest behind the colon as a number gives the port.
pub proof fn law_address_holds_host_and_port(host: Seq<char>, port: u16)
    ensures
        ({
            let address = address_text(host, port);
            let colon = 5 + host.len() as int;
            &&& address.take(5) == seq!['w', 's', ':', '/', '/']
            &&& address.subrange(5, colon) == host
            &&& address[colon] == ':'
            &&& decimal::decimal_value(address.skip(colon + 1)) == port
            &&& forall|i: int|
                colon < i < address.len() ==> '0' <= #[trigger] address[i] <= '9'
            &&& address[colon + 1] == '0' ==> port == 0 && address.len() == colon + 2
        }),
{
    reveal_strlit("ws://");
    reveal_strlit(":");
    let address = address_text(host, port);
    let colon = 5 + host.len() as int;
    let digits = decimal::decimal_text(port as nat);
    decimal::law_decimal_reads_back(port as nat);
    assert(address.take(5) =~= seq!['w', 's', ':', '/', '/']);
    assert(address.subrange(5, colon) =~= host);
    assert(address.skip(colon + 1) =~= digits);
    assert forall|i: int| colon < i < address.len() implies '0' <= #[trigger] address[i]
        <= '9' by {
        assert(address[i] == digits[i - colon - 1]);
    }
    assert(address[colon + 1] == digits[0]);
}

/// The state of the application is what its parts hold, and it is consistent
/// exactly where its text area is.
pub proof fn law_state_is_the_parts(app: App)
    ensures
        app@.text == app.text_area@,
        app@.mode == app.input_mode,
        app@.messages == app.messages@,
        app@.target == app.target@,
        app.wf() <==> app.text_area.wf(),
{
}

} // verus!
