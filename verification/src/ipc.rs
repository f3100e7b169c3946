//! Messages of the status/reload socket, and what replies mean.

use vstd::prelude::*;

use crate::text::{digits_of, unsigned_decimal_string};

verus! {

broadcast use vstd::string::group_string_axioms;

/// Request shapes the daemon understands.
#[derive(Debug, Clone, Copy, PartialEq, Eq, Structural)]
pub enum Request {
    Status,
    Reload,
}

/// Daemon response.
#[derive(Debug)]
pub enum Response {
    Status(StatusPayload),
    Reloaded,
    Error { message: String },
}

/// Payload of a `status` response.
#[derive(Debug)]
pub struct StatusPayload {
    pub version: String,
    pub rules_loaded: usize,
    pub uptime_secs: u64,
    pub focused_app: Option<String>,
    pub permissions: StatusPermissions,
}

/// Permission part of a status payload.
#[derive(Debug, Clone, Copy, PartialEq, Eq, Structural)]
pub struct StatusPermissions {
    pub accessibility: bool,
    pub input_monitoring: bool,
}

/// The response to a reload request, from the reload's outcome.
pub fn reload_response(outcome: Result<(), String>) -> (r: Response)
    ensures
        r == match outcome {
            Ok(()) => Response::Reloaded,
            Err(message) => Response::Error { message },
        },
{
    match outcome {
        Ok(()) => Response::Reloaded,
        Err(message) => Response::Error { message },
    }
}

/// What a reply to a status request means for the client: the payload, or
/// the error to report.
pub fn status_reply(resp: Response) -> (r: Result<StatusPayload, String>)
    ensures
        match resp {
            Response::Status(s) => r == Ok::<StatusPayload, String>(s),
            Response::Error { message } => r matches Err(m) && m@ == "daemon error: "@ + message@,
            Response::Reloaded => r matches Err(m) && m@ == "unexpected response"@,
        },
{
    match resp {
        Response::Status(s) => Ok(s),
        Response::Error { message } => Err(String::from_str("daemon error: ").concat(message.as_str())),
        Response::Reloaded => Err(String::from_str("unexpected response")),
    }
}

/// What a reply to a reload request means for the client.
pub fn reload_reply(resp: Response) -> (r: Result<(), String>)
    ensures
        match resp {
            Response::Reloaded => r is Ok,
            Response::Error { message } => r matches Err(m) && m@ == "reload failed: "@ + message@,
            Response::Status(_) => r matches Err(m) && m@ == "unexpected response"@,
        },
{
    match resp {
        Response::Reloaded => Ok(()),
        Response::Error { message } => Err(String::from_str("reload failed: ").concat(message.as_str())),
        Response::Status(_) => Err(String::from_str("unexpected response")),
    }
}

/// `"yes"` or `"NO"`.
pub open spec fn yes_no(b: bool) -> Seq<char> {
    if b {
        "yes"@
    } else {
        "NO"@
    }
}

/// `"yes"` or `"NO"`, for the status report.
pub fn yn(b: bool) -> (r: &'static str)
    ensures
        r@ == yes_no(b),
{
    if b {
        "yes"
    } else {
        "NO"
    }
}

/// The lines of the status report printed for a status payload.
pub open spec fn status_report_lines(s: StatusPayload) -> Seq<Seq<char>> {
    seq![
        "sledge "@ + s.version@,
        "  uptime         : "@ + digits_of(s.uptime_secs as nat) + "s"@,
        "  rules loaded   : "@ + digits_of(s.rules_loaded as nat),
        "  focused app    : "@ + match s.focused_app {
            Some(a) => a@,
            None => "<unknown>"@,
        },
        "  accessibility  : "@ + yes_no(s.permissions.accessibility),
        "  input monitor  : "@ + yes_no(s.permissions.input_monitoring),
    ]
}

/// The status report for a status payload, one string per line.
pub fn status_report(s: &StatusPayload) -> (r: Vec<String>)
    ensures
        r@.map_values(|l: String| l@) == status_report_lines(*s),
{
    let mut lines: Vec<String> = Vec::new();
    lines.push(String::from_str("sledge ").concat(s.version.as_str()));
    let uptime = unsigned_decimal_string(s.uptime_secs);
    lines.push(String::from_str("  uptime         : ").concat(uptime.as_str()).concat("s"));
    let rules = unsigned_decimal_string(s.rules_loaded as u64);
    lines.push(String::from_str("  rules loaded   : ").concat(rules.as_str()));
    let app = match &s.focused_app {
        Some(a) => a.as_str(),
        None => "<unknown>",
    };
    lines.push(String::from_str("  focused app    : ").concat(app));
    lines.push(String::from_str("  accessibility  : ").concat(yn(s.permissions.accessibility)));
    lines.push(String::from_str("  input monitor  : ").concat(yn(s.permissions.input_monitoring)));
    assert(lines@.map_values(|l: String| l@) =~= status_report_lines(*s));
    lines
}

} // verus!
