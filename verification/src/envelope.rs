//! Request and response envelopes of the relay protocol.
//!
//! A client sends `{ requestId?, command, payload }` as one JSON text frame;
//! the relay answers every parseable request with exactly one
//! `{ requestId, status, command, data }` envelope.  The `requestId` is
//! opaque: the relay never inspects its value, it only echoes it back.
//! The `payload` and `data` fields are arbitrary JSON; the relay carries
//! them as their JSON source text.

use vstd::prelude::*;

verus! {

/// The mathematical model of a request envelope.
pub struct ReqModel {
    /// `None` both when the field is absent and when it is `null`.
    pub request_id: Option<u64>,
    pub command: Seq<char>,
    /// The `payload` field, as JSON text.
    pub payload_json: Seq<char>,
}

/// A decoded request envelope.
pub struct Request {
    pub request_id: Option<u64>,
    pub command: String,
    /// The `payload` field of the envelope, re-serialized as JSON text.
    pub payload_json: String,
}

impl View for Request {
    type V = ReqModel;

    open spec fn view(&self) -> ReqModel {
        ReqModel {
            request_id: self.request_id,
            command: self.command@,
            payload_json: self.payload_json@,
        }
    }
}

/// The outcome field of a response envelope: serialized as `"ok"` or
/// `"error"`.
#[derive(PartialEq, Eq, Structural, Clone, Copy, Debug)]
pub enum Status {
    Success,
    Error,
}

impl Status {
    /// The wire text of the status.
    pub open spec fn text(self) -> Seq<char> {
        match self {
            Status::Success => "ok"@,
            Status::Error => "error"@,
        }
    }
}

/// The mathematical model of a response envelope.
pub struct RespModel {
    pub request_id: Option<u64>,
    pub status: Status,
    pub command: Seq<char>,
    /// The `data` field, as JSON text.
    pub data_json: Seq<char>,
}

/// A response envelope, ready to be serialized.
pub struct Response {
    pub request_id: Option<u64>,
    pub status: Status,
    pub command: String,
    /// The `data` field of the envelope, as JSON text.
    pub data_json: String,
}

impl View for Response {
    type V = RespModel;

    open spec fn view(&self) -> RespModel {
        RespModel {
            request_id: self.request_id,
            status: self.status,
            command: self.command@,
            data_json: self.data_json@,
        }
    }
}

} // verus!
