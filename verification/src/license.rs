//! Classification of the entitlement server's answer to a validation poll.
//!
//! The poll itself — a timed HTTP post of the license key — runs outside
//! this crate; what came back is handed in here, and the verdict for the
//! UI is decided exactly.

use vstd::prelude::*;
use vstd::string::StringExecFns;

verus! {

/// What one validation poll produced.
pub enum ValidationEvent {
    /// The server answered success and its body was parsed: whether the
    /// license is valid, and the server's message.
    Verdict(bool, String),
    /// The server answered success but its body could not be parsed.
    UnreadableBody,
    /// The server answered with a non-success status; its text.
    HttpError(String),
    /// The server could not be reached; the failure's text.
    NetworkError(String),
}

/// Decides what one validation poll means: the server's message on a valid
/// license, and otherwise the error text to show — the server's own message
/// on an invalid license, a fixed text for an unreadable body, and the
/// status or failure text behind a fixed prefix for the rest.
pub fn classify_validation(ev: ValidationEvent) -> (r: Result<String, String>)
    ensures
        match ev {
            ValidationEvent::Verdict(valid, msg) => {
                if valid {
                    r matches Ok(m) && m@ == msg@
                } else {
                    r matches Err(m) && m@ == msg@
                }
            },
            ValidationEvent::UnreadableBody => r matches Err(m) && m@ == "Parse error"@,
            ValidationEvent::HttpError(s) => r matches Err(m) && m@ == "HTTP error: "@ + s@,
            ValidationEvent::NetworkError(s) => r matches Err(m) && m@ == "Network error: "@ + s@,
        },
{
    match ev {
        ValidationEvent::Verdict(valid, msg) => {
            if valid {
                Ok(msg)
            } else {
                Err(msg)
            }
        },
        ValidationEvent::UnreadableBody => Err(String::from_str("Parse error")),
        ValidationEvent::HttpError(s) => {
            let mut m = String::from_str("HTTP error: ");
            m.append(s.as_str());
            Err(m)
        },
        ValidationEvent::NetworkError(s) => {
            let mut m = String::from_str("Network error: ");
            m.append(s.as_str());
            Err(m)
        },
    }
}

} // verus!
