//! The decisions of startup: bind, then serve until a fatal error.
use vstd::prelude::*;

verus! {

/// Where the service stands.
#[derive(Clone, Copy, Debug, PartialEq, Eq, Structural)]
pub enum Phase {
    /// The address is resolved; the listener is not bound yet.
    Starting,
    /// The listener is bound and requests are served.
    Serving,
    /// Startup or serving failed; nothing more is done.
    Stopped,
}

/// What the outside world reports back.
pub enum Event {
    /// The listener was bound.
    Bound,
    /// Binding the listener failed, with the error's text.
    BindFailed(String),
    /// Serving failed, with the error's text.
    ServeFailed(String),
}

/// A line for the operator.
pub enum LogLine {
    /// For standard output.
    Info(String),
    /// For standard error.
    Error(String),
}

/// What a step decides: the next phase and the line to write, if any.
pub struct Step {
    pub phase: Phase,
    pub log: Option<LogLine>,
}

/// The phase after `event` in `phase`.
pub open spec fn next_phase(phase: Phase, event: Event) -> Phase {
    match (phase, event) {
        (Phase::Starting, Event::Bound) => Phase::Serving,
        (Phase::Starting, Event::BindFailed(_)) => Phase::Stopped,
        (Phase::Serving, Event::ServeFailed(_)) => Phase::Stopped,
        _ => phase,
    }
}

/// A line as a pair: whether it goes to standard error, and its text.
pub open spec fn line_view(l: LogLine) -> (bool, Seq<char>) {
    match l {
        LogLine::Info(t) => (false, t@),
        LogLine::Error(t) => (true, t@),
    }
}

/// The line written on `event` in `phase`, for a service on `host_port`.
pub open spec fn log_of(phase: Phase, host_port: Seq<char>, event: Event) -> Option<
    (bool, Seq<char>),
> {
    match (phase, event) {
        (Phase::Starting, Event::Bound) => Some((false, "Info: Serving on "@ + host_port)),
        (Phase::Starting, Event::BindFailed(e)) => Some(
            (true, "Error: Failed to bind on "@ + host_port + ": "@ + e@),
        ),
        (Phase::Serving, Event::ServeFailed(e)) => Some((true, "Error: axum::serve: "@ + e@)),
        _ => None,
    }
}

/// The phase reached from `phase` after `events`, in order.
pub open spec fn run(phase: Phase, events: Seq<Event>) -> Phase
    decreases events.len(),
{
    if events.len() == 0 {
        phase
    } else {
        run(next_phase(phase, events[0]), events.drop_first())
    }
}

/// Decides what `event` leads to in `phase`, for a service on `host_port`.
pub fn step(phase: Phase, host_port: &str, event: &Event) -> (r: Step)
    ensures
        r.phase == next_phase(phase, *event),
        match r.log {
            Some(l) => log_of(phase, host_port@, *event) == Some(line_view(l)),
            None => log_of(phase, host_port@, *event) is None,
        },
{
    match (phase, event) {
        (Phase::Starting, Event::Bound) => {
            let mut t = String::from_str("Info: Serving on ");
            t.append(host_port);
            Step { phase: Phase::Serving, log: Some(LogLine::Info(t)) }
        },
        (Phase::Starting, Event::BindFailed(e)) => {
            let mut t = String::from_str("Error: Failed to bind on ");
            t.append(host_port);
            t.append(": ");
            t.append(e.as_str());
            Step { phase: Phase::Stopped, log: Some(LogLine::Error(t)) }
        },
        (Phase::Serving, Event::ServeFailed(e)) => {
            let mut t = String::from_str("Error: axum::serve: ");
            t.append(e.as_str());
            Step { phase: Phase::Stopped, log: Some(LogLine::Error(t)) }
        },
        _ => Step { phase, log: None },
    }
}

/// Once stopped, the service stays stopped whatever is reported.
pub proof fn stopped_is_final(events: Seq<Event>)
    ensures
        run(Phase::Stopped, events) == Phase::Stopped,
    decreases events.len(),
{
    if events.len() > 0 {
        stopped_is_final(events.drop_first());
    }
}

/// A failed bind stops the service before it serves: no line announces
/// serving, and no later event brings it to serve.
pub proof fn bind_failure_never_serves(host_port: Seq<char>, error: String, later: Seq<Event>)
    ensures
        next_phase(Phase::Starting, Event::BindFailed(error)) == Phase::Stopped,
        log_of(Phase::Starting, host_port, Event::BindFailed(error))
            == Some((true, "Error: Failed to bind on "@ + host_port + ": "@ + error@)),
        run(Phase::Starting, seq![Event::BindFailed(error)] + later) == Phase::Stopped,
{
    let events = seq![Event::BindFailed(error)] + later;
    assert(events[0] == Event::BindFailed(error));
    assert(events.drop_first() =~= later);
    stopped_is_final(later);
}

} // verus!
