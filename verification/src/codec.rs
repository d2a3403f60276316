//! Decoding and encoding of the JSON envelopes.
//!
//! General JSON work — parsing a text, encoding an arbitrary string — is done
//! by `serde_json` behind trusted wrappers; what each call returns is given a
//! name, since it is a function of the arguments alone.  The envelope
//! serialization itself is verified text assembly over those names.

use vstd::prelude::*;
use vstd::string::StringExecFns;

use crate::envelope::{ReqModel, Request, RespModel, Response, Status};
use crate::numtext::{dec_seq, dec_string};

verus! {

/// What decoding `text` as a request envelope yields: `None` when the text
/// is not a JSON object with a string `command`, a `payload`, and an absent,
/// `null` or unsigned-integer `requestId`; otherwise the decoded envelope,
/// with the payload re-serialized as JSON text.
pub uninterp spec fn parsed_request(text: Seq<char>) -> Option<ReqModel>;

/// The JSON encoding of a string: quoted and escaped.
pub uninterp spec fn json_string_of(s: Seq<char>) -> Seq<char>;

/// Whether a text is one well-formed JSON value.
pub uninterp spec fn json_wf(text: Seq<char>) -> bool;

/// Relies on `serde_json::from_str` and the accessors of
/// `serde_json::Value`: decodes one request envelope from one JSON text.
/// The result depends on the text alone.
#[verifier::external_body]
pub(crate) fn parse_request_text(text: &str) -> (r: Option<Request>)
    ensures
        match r {
            Some(q) => parsed_request(text@) == Some(q@),
            None => parsed_request(text@) is None,
        },
{
    let v: serde_json::Value = serde_json::from_str(text).ok()?;
    let obj = match v { serde_json::Value::Object(m) => m, _ => return None };
    let request_id = match obj.get("requestId") {
        None | Some(serde_json::Value::Null) => None,
        Some(other) => Some(other.as_u64()?),
    };
    let command = match obj.get("command") {
        Some(serde_json::Value::String(s)) => s.clone(),
        _ => return None,
    };
    let payload_json = serde_json::to_string(obj.get("payload")?).ok()?;
    Some(Request { request_id, command, payload_json })
}

/// Relies on `serde_json::to_string` on a `&str`: encodes a string as a JSON
/// string literal, quoted and escaped.  The result depends on the string
/// alone.
#[verifier::external_body]
pub(crate) fn encode_json_string(s: &str) -> (r: String)
    ensures
        r@ == json_string_of(s@),
{
    serde_json::to_string(s).unwrap_or_else(|_| String::new())
}

/// Relies on `serde_json::from_str::<serde_json::Value>`: says whether the
/// text is one well-formed JSON value.  The answer depends on the text
/// alone.
#[verifier::external_body]
pub(crate) fn check_json(text: &str) -> (r: bool)
    ensures
        r == json_wf(text@),
{
    serde_json::from_str::<serde_json::Value>(text).is_ok()
}

/// The `requestId` field of a serialized response: the echoed integer, or
/// `null` when the request carried none.
pub open spec fn request_id_json(id: Option<u64>) -> Seq<char> {
    match id {
        Some(n) => dec_seq(n as nat),
        None => "null"@,
    }
}

/// The serialization of a response envelope: one JSON object with the
/// fields `requestId`, `status`, `command` and `data`, in that order.
pub open spec fn response_json(r: RespModel) -> Seq<char> {
    "{\"requestId\":"@ + request_id_json(r.request_id) + ",\"status\":\""@ + r.status.text()
        + "\",\"command\":"@ + json_string_of(r.command) + ",\"data\":"@ + r.data_json + "}"@
}

fn status_str(st: Status) -> (r: &'static str)
    ensures
        r@ == st.text(),
{
    match st {
        Status::Success => "ok",
        Status::Error => "error",
    }
}

/// Serializes a response envelope as JSON text.
pub fn response_text(resp: &Response) -> (r: String)
    ensures
        r@ == response_json(resp@),
{
    let mut s = String::from_str("{\"requestId\":");
    match resp.request_id {
        Some(n) => {
            let d = dec_string(n);
            s.append(d.as_str());
        },
        None => {
            s.append("null");
        },
    }
    s.append(",\"status\":\"");
    s.append(status_str(resp.status));
    s.append("\",\"command\":");
    let cj = encode_json_string(resp.command.as_str());
    s.append(cj.as_str());
    s.append(",\"data\":");
    s.append(resp.data_json.as_str());
    s.append("}");
    proof {
        assert(s@ =~= response_json(resp@));
    }
    s
}

} // verus!
