//! Resolution of the listening address from the host and port variables.
use vstd::prelude::*;

verus! {

/// Host used when the host variable cannot be read.
pub const DEFAULT_HOST: &'static str = "0.0.0.0";

/// Port used when the port variable cannot be read.
pub const DEFAULT_PORT: &'static str = "8080";

/// What a lookup of one environment variable gave.
pub enum EnvLookup {
    /// The variable is set and holds valid text.
    Present(String),
    /// The variable is not set.
    Absent,
    /// The variable is set but does not hold valid text.
    NotUnicode,
}

/// The value that a lookup resolves to: its text when present, else the default.
pub open spec fn resolved_value(lookup: EnvLookup, default: Seq<char>) -> Seq<char> {
    match lookup {
        EnvLookup::Present(v) => v@,
        _ => default,
    }
}

/// The address `host:port`.
pub open spec fn address_of(host: Seq<char>, port: Seq<char>) -> Seq<char> {
    host + ":"@ + port
}

/// Resolves one variable: its text when present, else `default`.
pub fn resolve_value(lookup: &EnvLookup, default: &str) -> (r: String)
    ensures
        r@ == resolved_value(*lookup, default@),
{
    match lookup {
        EnvLookup::Present(v) => v.clone(),
        _ => String::from_str(default),
    }
}

/// The address to bind, `host:port`, each part falling back to its default.
pub fn get_host_port(host: &EnvLookup, port: &EnvLookup) -> (r: String)
    ensures
        r@ == address_of(
            resolved_value(*host, DEFAULT_HOST@),
            resolved_value(*port, DEFAULT_PORT@),
        ),
        host matches EnvLookup::Present(h) ==> (port matches EnvLookup::Present(p) ==> r@ == h@
            + ":"@ + p@),
        !(host is Present) ==> r@ == "0.0.0.0"@ + ":"@ + resolved_value(*port, DEFAULT_PORT@),
        !(port is Present) ==> r@ == resolved_value(*host, DEFAULT_HOST@) + ":"@ + "8080"@,
{
    let mut r = resolve_value(host, DEFAULT_HOST);
    r.append(":");
    let p = resolve_value(port, DEFAULT_PORT);
    r.append(p.as_str());
    r
}

/// The warning written when a variable named `name` falls back to `default`;
/// none when the variable was read.
pub open spec fn warning_text(name: Seq<char>, lookup: EnvLookup, default: Seq<char>) -> Option<
    Seq<char>,
> {
    match lookup {
        EnvLookup::Present(_) => None,
        EnvLookup::Absent => Some("Warn: "@ + name + " not setup, fallback to "@ + default),
        EnvLookup::NotUnicode => Some(
            "Warn: "@ + name + " contains non unicode data, fallback to "@ + default,
        ),
    }
}

/// The warning for a variable named `name` that falls back to `default`,
/// with a distinct text for an unset variable and for one that is not text.
pub fn fallback_warning(name: &str, lookup: &EnvLookup, default: &str) -> (r: Option<String>)
    ensures
        match r {
            Some(w) => warning_text(name@, *lookup, default@) == Some(w@),
            None => warning_text(name@, *lookup, default@) is None,
        },
{
    let reason = match lookup {
        EnvLookup::Present(_) => {
            return None;
        },
        EnvLookup::Absent => " not setup, fallback to ",
        EnvLookup::NotUnicode => " contains non unicode data, fallback to ",
    };
    let mut w = String::from_str("Warn: ");
    w.append(name);
    w.append(reason);
    w.append(default);
    Some(w)
}

} // verus!
