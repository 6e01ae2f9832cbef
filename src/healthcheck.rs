//! The shared application state and the text of the `/healthcheck` answer.
use std::time::Instant;
use vstd::prelude::*;

verus! {

/// The monotonic clock's instants, carried through opaquely.
#[verifier::external_type_specification]
#[verifier::external_body]
pub struct ExInstant(std::time::Instant);

/// Relies on `Instant::now`: reads the monotonic clock; nothing is known of the value.
pub assume_specification[ std::time::Instant::now ]() -> Instant;

/// Relies on `Instant::elapsed`: the time since the instant, read from the clock.
pub assume_specification[ std::time::Instant::elapsed ](start: &Instant) -> core::time::Duration;

/// Relies on `Duration::as_secs`: the whole seconds of a duration.
pub assume_specification[ core::time::Duration::as_secs ](d: &core::time::Duration) -> u64;

/// The character of a decimal digit.
pub open spec fn digit_char(d: nat) -> char {
    if d == 0 {
        '0'
    } else if d == 1 {
        '1'
    } else if d == 2 {
        '2'
    } else if d == 3 {
        '3'
    } else if d == 4 {
        '4'
    } else if d == 5 {
        '5'
    } else if d == 6 {
        '6'
    } else if d == 7 {
        '7'
    } else if d == 8 {
        '8'
    } else {
        '9'
    }
}

/// The decimal notation of `n`, without leading zeros.
pub open spec fn decimal(n: nat) -> Seq<char>
    decreases n,
{
    if n < 10 {
        seq![digit_char(n)]
    } else {
        decimal(n / 10) + seq![digit_char(n % 10)]
    }
}

/// The body answered on `/healthcheck` after `secs` whole seconds of uptime,
/// for a service bound on `host_port`.
pub open spec fn body_text(secs: nat, host_port: Seq<char>) -> Seq<char> {
    "api uptime: "@ + decimal(secs) + serving_line(host_port)
}

/// The line of the body that names the bound address, with the line break before it.
pub open spec fn serving_line(host_port: Seq<char>) -> Seq<char> {
    "\nserving on: "@ + host_port
}

/// The text of the decimal digit `d`.
fn digit_str(d: u64) -> (r: &'static str)
    requires
        d < 10,
    ensures
        r@ == seq![digit_char(d as nat)],
{
    proof {
        reveal_strlit("0");
        reveal_strlit("1");
        reveal_strlit("2");
        reveal_strlit("3");
        reveal_strlit("4");
        reveal_strlit("5");
        reveal_strlit("6");
        reveal_strlit("7");
        reveal_strlit("8");
        reveal_strlit("9");
    }
    if d == 0 {
        "0"
    } else if d == 1 {
        "1"
    } else if d == 2 {
        "2"
    } else if d == 3 {
        "3"
    } else if d == 4 {
        "4"
    } else if d == 5 {
        "5"
    } else if d == 6 {
        "6"
    } else if d == 7 {
        "7"
    } else if d == 8 {
        "8"
    } else {
        "9"
    }
}

/// Appends the decimal notation of `n` to `s`.
pub fn push_decimal(s: &mut String, n: u64)
    ensures
        final(s)@ == old(s)@ + decimal(n as nat),
    decreases n,
{
    if n >= 10 {
        push_decimal(s, n / 10);
    }
    s.append(digit_str(n % 10));
    assert(s@ =~= old(s)@ + decimal(n as nat));
}

/// The body answered on `/healthcheck`: the uptime in whole seconds and the bound address.
pub fn healthcheck_body(uptime_secs: u64, host_port: &str) -> (r: String)
    ensures
        r@ == body_text(uptime_secs as nat, host_port@),
{
    let mut r = String::from_str("api uptime: ");
    push_decimal(&mut r, uptime_secs);
    r.append("\nserving on: ");
    r.append(host_port);
    assert(r@ =~= body_text(uptime_secs as nat, host_port@));
    r
}

/// What every request handler reads: when the service started and the address
/// it is bound on. It is not changed after it is made.
pub struct AppInfo {
    pub uptime: Instant,
    pub host_port: String,
}

impl AppInfo {
    /// The state of a service bound on `host_port`, started now.
    pub fn new(host_port: String) -> (r: AppInfo)
        ensures
            r.host_port == host_port,
    {
        AppInfo { uptime: Instant::now(), host_port }
    }
}

/// The answer to a request on `/healthcheck`: the whole seconds elapsed since
/// `info` was made, and the address it holds.
pub fn healthcheck(info: &AppInfo) -> (r: String)
    ensures
        exists|secs: u64| r@ == #[trigger] body_text(secs as nat, info.host_port@),
{
    let elapsed = info.uptime.elapsed();
    let secs = elapsed.as_secs();
    healthcheck_body(secs, info.host_port.as_str())
}

/// Two answers of one service, whatever uptimes they report, end with the same
/// line naming the bound address.
pub proof fn serving_line_is_shared(secs1: nat, secs2: nat, host_port: Seq<char>)
    ensures
        ({
            let b1 = body_text(secs1, host_port);
            let b2 = body_text(secs2, host_port);
            let k = serving_line(host_port).len();
            &&& b1.subrange(b1.len() - k, b1.len() as int) == serving_line(host_port)
            &&& b2.subrange(b2.len() - k, b2.len() as int) == serving_line(host_port)
        }),
{
    let line = serving_line(host_port);
    let b1 = body_text(secs1, host_port);
    let b2 = body_text(secs2, host_port);
    assert(b1.subrange(b1.len() - line.len(), b1.len() as int) =~= line);
    assert(b2.subrange(b2.len() - line.len(), b2.len() as int) =~= line);
}

} // verus!
