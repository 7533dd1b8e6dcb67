//! How main's drone client waits for the answer to a request: events of
//! other kinds are skipped, the awaited answer ends the wait, and an
//! alert naming the request fails it.

use vstd::prelude::*;

use crate::text::{seq_starts_with, starts_with};

verus! {

/// The answer a request waits for.
#[derive(Clone, Copy, Debug, PartialEq, Eq, Structural)]
pub enum Awaited {
    /// The rows of a `query_session_db` request.
    QueryResult,
    /// The signal log of a `read_signals` request.
    SignalLog,
    /// The recovered state of a `recover_session` request.
    SessionRecovered,
}

/// The alert prefix that names a request.
pub open spec fn alert_prefix(a: Awaited) -> Seq<char> {
    match a {
        Awaited::QueryResult => "query_session_db"@,
        Awaited::SignalLog => "read_signals"@,
        Awaited::SessionRecovered => "recover_session"@,
    }
}

impl Awaited {
    /// `query_session_db`, `read_signals` or `recover_session`: alerts
    /// whose message starts with it report the request's failure.
    pub fn alert_prefix(&self) -> (r: &'static str)
        ensures
            r@ == alert_prefix(*self),
    {
        match self {
            Awaited::QueryResult => "query_session_db",
            Awaited::SignalLog => "read_signals",
            Awaited::SessionRecovered => "recover_session",
        }
    }
}

/// An event that arrived while a request waits, as far as the wait
/// tells events apart.
#[derive(Clone, Debug)]
pub enum Arrival {
    /// Query rows.
    QueryResult,
    /// A signal log.
    SignalLog,
    /// A recovered session.
    SessionRecovered,
    /// An alert, with its message.
    Alert(String),
    /// Anything else (heartbeats, snapshots, process events).
    Other,
}

/// What the waiting request does with an event.
#[derive(Clone, Copy, Debug, PartialEq, Eq, Structural)]
pub enum AwaitStep {
    /// The event is the answer.
    Accept,
    /// The event is an alert about this request: fail with its message.
    Fail,
    /// Skip the event and keep waiting.
    Wait,
}

/// The step for an event: the awaited kind is accepted, an alert whose
/// message starts with the request's prefix fails the request, and
/// everything else is skipped.
pub open spec fn await_outcome(awaited: Awaited, arrival: Arrival) -> AwaitStep {
    match arrival {
        Arrival::QueryResult => if awaited == Awaited::QueryResult {
            AwaitStep::Accept
        } else {
            AwaitStep::Wait
        },
        Arrival::SignalLog => if awaited == Awaited::SignalLog {
            AwaitStep::Accept
        } else {
            AwaitStep::Wait
        },
        Arrival::SessionRecovered => if awaited == Awaited::SessionRecovered {
            AwaitStep::Accept
        } else {
            AwaitStep::Wait
        },
        Arrival::Alert(message) => if seq_starts_with(message@, alert_prefix(awaited)) {
            AwaitStep::Fail
        } else {
            AwaitStep::Wait
        },
        Arrival::Other => AwaitStep::Wait,
    }
}

/// Decides what a request waiting for `awaited` does with an event.
pub fn await_step(awaited: Awaited, arrival: &Arrival) -> (r: AwaitStep)
    ensures
        r == await_outcome(awaited, *arrival),
{
    match arrival {
        Arrival::QueryResult => if awaited == Awaited::QueryResult {
            AwaitStep::Accept
        } else {
            AwaitStep::Wait
        },
        Arrival::SignalLog => if awaited == Awaited::SignalLog {
            AwaitStep::Accept
        } else {
            AwaitStep::Wait
        },
        Arrival::SessionRecovered => if awaited == Awaited::SessionRecovered {
            AwaitStep::Accept
        } else {
            AwaitStep::Wait
        },
        Arrival::Alert(message) => if starts_with(message.as_str(), awaited.alert_prefix()) {
            AwaitStep::Fail
        } else {
            AwaitStep::Wait
        },
        Arrival::Other => AwaitStep::Wait,
    }
}

/// A request accepts only the answer it waits for: an event of another
/// answer kind, or any event that is not an answer or an alert, never
/// ends the wait.
pub proof fn lemma_only_the_awaited_answer_is_accepted(awaited: Awaited, arrival: Arrival)
    requires
        await_outcome(awaited, arrival) == AwaitStep::Accept,
    ensures
        match awaited {
            Awaited::QueryResult => arrival is QueryResult,
            Awaited::SignalLog => arrival is SignalLog,
            Awaited::SessionRecovered => arrival is SessionRecovered,
        },
{
}

} // verus!
