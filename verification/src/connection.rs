//! The steps of connecting to a server and what is recorded about them.

use crate::decimal;
use vstd::prelude::*;
use vstd::string::*;

verus! {

/// How long a connection may take to be established.
pub const TIMEOUT_SECS: u64 = 3;

/// What happens while connecting. Errors come as the text that describes them.
#[derive(Debug)]
pub enum ConnectionEvent {
    /// Connecting has been asked for.
    Requested,
    Established,
    Failed(String),
    TimedOut(String),
}

/// What to do after an event.
#[derive(Debug, Clone, Copy, PartialEq, Eq, Structural)]
pub enum ConnectionStep {
    /// Open the connection, waiting no longer than this many seconds.
    Open { timeout_secs: u64 },
    /// Hand over the open connection.
    Succeed,
    /// Report the error.
    Fail,
}

/// What to record after an event, and what to do then.
#[derive(Debug)]
pub struct ConnectionOrder {
    pub status: String,
    pub step: ConnectionStep,
}

/// The status that is recorded after an event.
pub open spec fn status_text(target: Seq<char>, event: ConnectionEvent) -> Seq<char> {
    match event {
        ConnectionEvent::Requested => "Connecting to "@ + target,
        ConnectionEvent::Established => "Connection established!"@,
        ConnectionEvent::Failed(error) => "Error connecting to server: "@ + error@,
        ConnectionEvent::TimedOut(error) => "Timed out after "@ + decimal::decimal_text(
            TIMEOUT_SECS as nat,
        ) + " seconds: "@ + error@,
    }
}

/// What is done after an event.
pub open spec fn step_after(event: ConnectionEvent) -> ConnectionStep {
    match event {
        ConnectionEvent::Requested => ConnectionStep::Open { timeout_secs: TIMEOUT_SECS },
        ConnectionEvent::Established => ConnectionStep::Succeed,
        ConnectionEvent::Failed(_) => ConnectionStep::Fail,
        ConnectionEvent::TimedOut(_) => ConnectionStep::Fail,
    }
}

/// Decide what to record and what to do after an event of the connection to
/// `target`.
pub fn connect_to_server(target: &str, event: &ConnectionEvent) -> (order: ConnectionOrder)
    ensures
        order.status@ == status_text(target@, *event),
        order.step == step_after(*event),
{
    match event {
        ConnectionEvent::Requested => {
            let mut status = "Connecting to ".to_owned();
            status.append(target);
            ConnectionOrder { status, step: ConnectionStep::Open { timeout_secs: TIMEOUT_SECS } }
        },
        ConnectionEvent::Established => ConnectionOrder {
            status: "Connection established!".to_owned(),
            step: ConnectionStep::Succeed,
        },
        ConnectionEvent::Failed(error) => {
            let mut status = "Error connecting to server: ".to_owned();
            status.append(error.as_str());
            ConnectionOrder { status, step: ConnectionStep::Fail }
        },
        ConnectionEvent::TimedOut(error) => {
            let mut status = "Timed out after ".to_owned();
            status.append(decimal::decimal(TIMEOUT_SECS).as_str());
            status.append(" seconds: ");
            status.append(error.as_str());
            ConnectionOrder { status, step: ConnectionStep::Fail }
        },
    }
}

/// A connection is handed over only once it is established, and opening one is
/// always tried with a limit of three seconds.
pub proof fn law_connection_steps(event: ConnectionEvent)
    ensures
        step_after(event) == ConnectionStep::Succeed <==> event is Established,
        step_after(event) == ConnectionStep::Fail <==> event is Failed || event is TimedOut,
        step_after(event) matches ConnectionStep::Open { timeout_secs } ==> timeout_secs
            == 3,
{
}

/// What is recorded tells the whole target when connecting starts, and the whole
/// error when it fails, behind words that say which of these happened.
pub proof fn law_status_holds_target_and_error(target: Seq<char>, error: String)
    ensures
        ({
            let requested = status_text(target, ConnectionEvent::Requested);
            &&& requested.len() == 14 + target.len()
            &&& requested.take(14) == "Connecting to "@
            &&& requested.skip(14) == target
        }),
        status_text(target, ConnectionEvent::Established) == "Connection established!"@,
        ({
            let failed = status_text(target, ConnectionEvent::Failed(error));
            &&& failed.len() == 28 + error@.len()
            &&& failed.take(28) == "Error connecting to server: "@
            &&& failed.skip(28) == error@
        }),
        ({
            let late = status_text(target, ConnectionEvent::TimedOut(error));
            let behind = late.len() - error@.len();
            &&& behind > 26
            &&& late.take(16) == "Timed out after "@
            &&& decimal::decimal_value(late.subrange(16, behind - 10)) == 3
            &&& late.subrange(behind - 10, behind) == " seconds: "@
            &&& late.skip(behind) == error@
        }),
{
    reveal_strlit("Connecting to ");
    reveal_strlit("Error connecting to server: ");
    reveal_strlit("Timed out after ");
    reveal_strlit(" seconds: ");
    decimal::law_decimal_reads_back(TIMEOUT_SECS as nat);
    let requested = status_text(target, ConnectionEvent::Requested);
    assert(requested.take(14) =~= "Connecting to "@);
    assert(requested.skip(14) =~= target);
    let failed = status_text(target, ConnectionEvent::Failed(error));
    assert(failed.take(28) =~= "Error connecting to server: "@);
    assert(failed.skip(28) =~= error@);
    let late = status_text(target, ConnectionEvent::TimedOut(error));
    let behind = late.len() - error@.len();
    assert(late.take(16) =~= "Timed out after "@);
    assert(late.subrange(16, behind - 10) =~= decimal::decimal_text(TIMEOUT_SECS as nat));
    assert(late.subrange(behind - 10, behind) =~= " seconds: "@);
    assert(late.skip(behind) =~= error@);
}

} // verus!
