//! The messages that the application records.

use vstd::prelude::*;
use vstd::string::*;

verus! {

/// The instants that the calendar covers, in seconds since the start of 1970:
/// from the first second of the year -262143 to the last of the year 262142.
pub open spec fn in_calendar(seconds: i64) -> bool {
    -8_334_601_228_800 <= seconds <= 8_210_266_876_799
}

/// A pattern in which every percent sign starts the specifier of a year, month,
/// day, hour, minute or second.
pub open spec fn is_date_pattern(pattern: Seq<char>) -> bool {
    forall|i: int|
        0 <= i < pattern.len() && #[trigger] pattern[i] == '%' ==> i + 1 < pattern.len() && (
        pattern[i + 1] == 'Y' || pattern[i + 1] == 'm' || pattern[i + 1] == 'd' || pattern[i + 1]
            == 'H' || pattern[i + 1] == 'M' || pattern[i + 1] == 'S')
}

/// An instant, written out after a pattern.
pub uninterp spec fn formatted_instant(seconds: i64, pattern: Seq<char>) -> Seq<char>;

/// Calls `NaiveDateTime::format` of the crate `chrono`.
///
/// Trusted: the text is a function of the instant and of the pattern alone,
/// which `formatted_instant` names. No pattern of these specifiers fails.
#[verifier::external_body]
fn format_instant(seconds: i64, pattern: &str) -> (text: String)
    requires
        in_calendar(seconds),
        is_date_pattern(pattern@),
    ensures
        text@ == formatted_instant(seconds, pattern@),
{
    let instant = chrono::DateTime::from_timestamp(seconds, 0).unwrap();
    instant.naive_utc().format(pattern).to_string()
}

/// Calls `Local::now` of the crate `chrono` and counts the seconds from the
/// start of 1970 to what the wall clock shows.
///
/// Trusted: the clock shows an instant that the calendar covers. Which one is
/// not stated, since it depends on the time and on the time zone. On a clock that
/// is set before 1970, or past the end of the calendar, the call panics; it has
/// no argument that could rule this out.
#[verifier::external_body]
fn wall_clock() -> (seconds: i64)
    ensures
        in_calendar(seconds),
{
    chrono::Local::now().naive_local().and_utc().timestamp()
}

/// An instant that the calendar covers, as a wall clock shows it.
#[derive(Debug, Clone, Copy, PartialEq, Eq)]
pub struct Timestamp {
    local_seconds: i64,
}

impl View for Timestamp {
    type V = i64;

    closed spec fn view(&self) -> i64 {
        self.local_seconds
    }
}

impl Timestamp {
    #[verifier::type_invariant]
    spec fn covered(self) -> bool {
        in_calendar(self.local_seconds)
    }

    /// The instant `local_seconds` after the wall clock showed the start of
    /// 1970, or `None` if the calendar does not cover it.
    pub fn from_local_seconds(local_seconds: i64) -> (ts: Option<Timestamp>)
        ensures
            ts is Some <==> in_calendar(local_seconds),
            ts matches Some(t) ==> t@ == local_seconds,
    {
        if -8_334_601_228_800 <= local_seconds && local_seconds <= 8_210_266_876_799 {
            Some(Timestamp { local_seconds })
        } else {
            None
        }
    }

    /// What the wall clock shows.
    pub fn now() -> (ts: Timestamp)
        ensures
            in_calendar(ts@),
    {
        Timestamp { local_seconds: wall_clock() }
    }

    /// Write the instant out after a pattern.
    pub fn format(&self, pattern: &str) -> (text: String)
        requires
            is_date_pattern(pattern@),
        ensures
            text@ == formatted_instant(self@, pattern@),
    {
        proof {
            use_type_invariant(&*self);
        }
        format_instant(self.local_seconds, pattern)
    }
}

#[derive(Debug, Clone, Copy, PartialEq, Eq, Structural)]
pub enum MessageKind {
    /// An inbound message from the server
    Inbound,
    /// An outbound message to the server
    Outbound,
    /// An update about the state of the connection.
    Status,
}

impl MessageKind {
    pub open spec fn spec_name(self) -> Seq<char> {
        match self {
            MessageKind::Inbound => "Inbound"@,
            MessageKind::Outbound => "Outbound"@,
            MessageKind::Status => "Status"@,
        }
    }

    /// The name of the kind, as shown in front of a message.
    pub fn name(self) -> (name: &'static str)
        ensures
            name@ == self.spec_name(),
    {
        match self {
            MessageKind::Inbound => "Inbound",
            MessageKind::Outbound => "Outbound",
            MessageKind::Status => "Status",
        }
    }
}

/// A message and when it was recorded.
#[derive(Debug)]
pub struct Message {
    pub ts: Timestamp,
    pub text: String,
    pub kind: MessageKind,
}

impl Message {
    /// A message recorded now.
    pub fn new(text: String, kind: MessageKind) -> (message: Self)
        ensures
            message.text == text,
            message.kind == kind,
            in_calendar(message.ts@),
    {
        Message::at(Timestamp::now(), text, kind)
    }

    /// A message recorded at `ts`.
    pub fn at(ts: Timestamp, text: String, kind: MessageKind) -> (message: Self)
        ensures
            message == (Message { ts, text, kind }),
    {
        Message { ts, text, kind }
    }
}

/// The colour that a message is shown in.
#[derive(Debug, Clone, Copy, PartialEq, Eq, Structural)]
pub enum MessageColor {
    Green,
    Default,
}

/// A message as the list of messages shows it.
#[derive(Debug)]
pub struct MessageLine {
    pub text: String,
    pub color: MessageColor,
}

/// The pattern of the time in front of a message.
pub open spec fn stamp_pattern() -> Seq<char> {
    "%Y-%m-%d %H:%m:%S"@
}

/// The colour of each kind of message.
pub open spec fn color_of(kind: MessageKind) -> MessageColor {
    match kind {
        MessageKind::Inbound => MessageColor::Green,
        MessageKind::Outbound => MessageColor::Green,
        MessageKind::Status => MessageColor::Default,
    }
}

/// The line that shows a message of a kind, given its time as text.
pub open spec fn message_text(kind: MessageKind, stamp: Seq<char>, text: Seq<char>) -> Seq<char> {
    kind.spec_name() + " ["@ + stamp + "] "@ + text
}

/// The line that shows a message, given the time in front of it.
pub fn format_stamped(kind: MessageKind, stamp: &str, text: &str) -> (line: MessageLine)
    ensures
        line.text@ == message_text(kind, stamp@, text@),
        line.color == color_of(kind),
{
    let color = match kind {
        MessageKind::Inbound => MessageColor::Green,
        MessageKind::Outbound => MessageColor::Green,
        MessageKind::Status => MessageColor::Default,
    };
    let mut line = kind.name().to_owned();
    line.append(" [");
    line.append(stamp);
    line.append("] ");
    line.append(text);
    MessageLine { text: line, color }
}

/// The line that shows a message.
pub fn format_message(message: &Message) -> (line: MessageLine)
    ensures
        line.text@ == message_text(
            message.kind,
            formatted_instant(message.ts@, stamp_pattern()),
            message.text@,
        ),
        line.color == color_of(message.kind),
{
    proof {
        reveal_strlit("%Y-%m-%d %H:%m:%S");
    }
    let stamp = message.ts.format("%Y-%m-%d %H:%m:%S");
    format_stamped(message.kind, stamp.as_str(), message.text.as_str())
}

/// The line of a message holds, in this order and with nothing else between: the
/// name of its kind, the time in square brackets, and the whole text, at the
/// line's end.
pub proof fn law_line_holds_whole_message(kind: MessageKind, stamp: Seq<char>, text: Seq<char>)
    ensures
        ({
            let line = message_text(kind, stamp, text);
            let name = kind.spec_name().len() as int;
            let head = name + 4 + stamp.len();
            &&& line.len() == head + text.len()
            &&& line.take(name) == kind.spec_name()
            &&& line[name] == ' '
            &&& line[name + 1] == '['
            &&& line.subrange(name + 2, name + 2 + stamp.len()) == stamp
            &&& line[head - 2] == ']'
            &&& line[head - 1] == ' '
            &&& line.skip(head) == text
        }),
{
    reveal_strlit(" [");
    reveal_strlit("] ");
    let line = message_text(kind, stamp, text);
    let name = kind.spec_name().len() as int;
    assert(line.take(name) =~= kind.spec_name());
    assert(line.subrange(name + 2, name + 2 + stamp.len()) =~= stamp);
    assert(line.skip(name + 4 + stamp.len()) =~= text);
}

/// Messages of one kind and time with different texts have different lines.
pub proof fn law_lines_tell_texts_apart(
    kind: MessageKind,
    stamp: Seq<char>,
    a: Seq<char>,
    b: Seq<char>,
)
    requires
        message_text(kind, stamp, a) == message_text(kind, stamp, b),
    ensures
        a == b,
{
    law_line_holds_whole_message(kind, stamp, a);
    law_line_holds_whole_message(kind, stamp, b);
}

/// Each kind of message is called by its own name.
pub proof fn law_kinds_have_their_names(a: MessageKind, b: MessageKind)
    ensures
        a.spec_name() == b.spec_name() ==> a == b,
        a is Inbound ==> a.spec_name() == "Inbound"@,
        a is Outbound ==> a.spec_name() == "Outbound"@,
        a is Status ==> a.spec_name() == "Status"@,
{
    reveal_strlit("Inbound");
    reveal_strlit("Outbound");
    reveal_strlit("Status");
    assert("Inbound"@[0] == 'I');
    assert("Outbound"@[0] == 'O');
    assert("Status"@[0] == 'S');
}

/// What comes from the server and what goes to it is green; only what is about
/// the connection is not.
pub proof fn law_colors(kind: MessageKind)
    ensures
        color_of(kind) == MessageColor::Default <==> kind is Status,
        color_of(MessageKind::Inbound) == color_of(MessageKind::Outbound),
{
}

/// The time in front of a message is a date with dashes and a time of day with
/// colons, each of three numbers, with a space between.
pub proof fn law_stamp_pattern()
    ensures
        is_date_pattern(stamp_pattern()),
        stamp_pattern() == seq!['%', 'Y', '-', '%', 'm', '-', '%', 'd'] + seq![' '] + seq![
            '%',
            'H',
            ':',
            '%',
            'm',
            ':',
            '%',
            'S',
        ],
{
    reveal_strlit("%Y-%m-%d %H:%m:%S");
    assert(stamp_pattern() =~= seq!['%', 'Y', '-', '%', 'm', '-', '%', 'd'] + seq![' '] + seq![
        '%',
        'H',
        ':',
        '%',
        'm',
        ':',
        '%',
        'S',
    ]);
}

/// The calendar has no gaps, covers the start of 1970, and starts and ends with
/// whole days.
pub proof fn law_calendar_has_no_gaps(a: i64, b: i64, c: i64)
    requires
        a <= b <= c,
        in_calendar(a),
        in_calendar(c),
    ensures
        in_calendar(b),
        in_calendar(0),
        in_calendar((a - a % 86_400) as i64),
        in_calendar((a - a % 86_400 + 86_399) as i64),
{
}

} // verus!
