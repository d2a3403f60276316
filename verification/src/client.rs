//! The worker protocol client: builders of the typed worker requests, and
//! the classification of what comes back over the link.
//!
//! Each builder draws a fresh request identifier from the process-wide
//! counter and serializes one request envelope `{ requestId, cmd, ... }` as
//! JSON text.  Optional fields are passed through as present-or-null, never
//! defaulted here.  The link carries one outstanding request at a time; the
//! worker's reply is passed through verbatim when it is one well-formed
//! JSON text, and every other outcome is a distinct error.

use vstd::prelude::*;
use vstd::string::StringExecFns;

use crate::codec::{check_json, encode_json_string, json_string_of, json_wf};
use crate::numtext::{dec_seq, dec_string};
use crate::worker::WorkerSystem;

verus! {

/// An error of one worker call, surfaced to the caller of that call alone;
/// the link's overall state is unaffected.
#[derive(Debug)]
pub enum WorkerCallError {
    /// No worker link is up.
    NotConnected,
    /// The request frame could not be sent.
    SendFailed(String),
    /// The worker replied with a frame that is not text.
    UnexpectedFrame,
    /// The link failed while the reply was awaited.
    Transport(String),
    /// The link closed before any reply arrived.
    NoReply,
    /// The worker's reply was not well-formed JSON.
    MalformedReply,
}

impl WorkerCallError {
    /// The error text, as handed to the caller of the call.
    pub open spec fn spec_message(&self) -> Seq<char> {
        match self {
            WorkerCallError::NotConnected => "DeepFace WS not started"@,
            WorkerCallError::SendFailed(d) => d@,
            WorkerCallError::UnexpectedFrame => "Unexpected WS message"@,
            WorkerCallError::Transport(d) => "WS error: "@ + d@,
            WorkerCallError::NoReply => "No response from DeepFace"@,
            WorkerCallError::MalformedReply => "Malformed JSON reply from DeepFace"@,
        }
    }

    /// The error text, as handed to the caller of the call.
    pub fn message(&self) -> (r: String)
        ensures
            r@ == self.spec_message(),
    {
        match self {
            WorkerCallError::NotConnected => String::from_str("DeepFace WS not started"),
            WorkerCallError::SendFailed(d) => d.clone(),
            WorkerCallError::UnexpectedFrame => String::from_str("Unexpected WS message"),
            WorkerCallError::Transport(d) => {
                let mut s = String::from_str("WS error: ");
                s.append(d.as_str());
                s
            },
            WorkerCallError::NoReply => String::from_str("No response from DeepFace"),
            WorkerCallError::MalformedReply => String::from_str(
                "Malformed JSON reply from DeepFace",
            ),
        }
    }
}

/// The text of an optional string field: the JSON encoding of the string,
/// or `null` when it is absent.
pub open spec fn json_opt_string(v: Option<Seq<char>>) -> Seq<char> {
    match v {
        Some(s) => json_string_of(s),
        None => "null"@,
    }
}

/// The view of an optional borrowed string.
pub open spec fn opt_text(v: Option<&str>) -> Option<Seq<char>> {
    match v {
        Some(s) => Some(s@),
        None => None,
    }
}

/// The `analyze` request envelope.
pub open spec fn analyze_request_json(
    id: u64,
    frame: Seq<char>,
    actions: Seq<char>,
    detector: Option<Seq<char>>,
    model: Option<Seq<char>>,
) -> Seq<char> {
    "{\"requestId\":"@ + dec_seq(id as nat) + ",\"cmd\":\"analyze\",\"frame\":"@ + json_string_of(
        frame,
    ) + ",\"actions\":"@ + json_string_of(actions) + ",\"detector\":"@ + json_opt_string(detector)
        + ",\"model\":"@ + json_opt_string(model) + "}"@
}

/// The `verify` request envelope.
pub open spec fn verify_request_json(
    id: u64,
    img1: Seq<char>,
    img2: Seq<char>,
    detector: Option<Seq<char>>,
    model: Option<Seq<char>>,
) -> Seq<char> {
    "{\"requestId\":"@ + dec_seq(id as nat) + ",\"cmd\":\"verify\",\"img1\":"@ + json_string_of(
        img1,
    ) + ",\"img2\":"@ + json_string_of(img2) + ",\"detector\":"@ + json_opt_string(detector)
        + ",\"model\":"@ + json_opt_string(model) + "}"@
}

/// The `detect` request envelope.
pub open spec fn detect_request_json(
    id: u64,
    frame: Seq<char>,
    detector: Option<Seq<char>>,
) -> Seq<char> {
    "{\"requestId\":"@ + dec_seq(id as nat) + ",\"cmd\":\"detect\",\"frame\":"@ + json_string_of(
        frame,
    ) + ",\"detector\":"@ + json_opt_string(detector) + "}"@
}

fn append_opt_json_string(s: &mut String, v: Option<&str>)
    ensures
        final(s)@ == old(s)@ + json_opt_string(opt_text(v)),
{
    match v {
        Some(x) => {
            let e = encode_json_string(x);
            s.append(e.as_str());
        },
        None => {
            s.append("null");
        },
    }
}

impl WorkerSystem {
    /// Whether a call may be made now: only over a running link.  Anything
    /// else earns the not-started error, before anything is sent.
    pub fn begin_call(&self) -> (r: Result<(), WorkerCallError>)
        ensures
            r is Ok <==> self.phase is Running,
            r matches Err(e) ==> e is NotConnected,
    {
        match self.phase {
            crate::worker::WorkerPhase::Running => Ok(()),
            _ => Err(WorkerCallError::NotConnected),
        }
    }

    /// Builds the `analyze` request under a freshly drawn identifier.
    pub fn analyze_request(
        &mut self,
        frame: &str,
        actions: &str,
        detector: Option<&str>,
        model: Option<&str>,
    ) -> (r: String)
        requires
            old(self).wf(),
            old(self).counter < u64::MAX,
        ensures
            final(self).wf(),
            final(self).counter == old(self).counter + 1,
            final(self).phase == old(self).phase,
            final(self).port == old(self).port,
            r@ == analyze_request_json(
                old(self).counter,
                frame@,
                actions@,
                opt_text(detector),
                opt_text(model),
            ),
    {
        let id = self.next_request_id();
        let mut s = String::from_str("{\"requestId\":");
        let d = dec_string(id);
        s.append(d.as_str());
        s.append(",\"cmd\":\"analyze\",\"frame\":");
        let f = encode_json_string(frame);
        s.append(f.as_str());
        s.append(",\"actions\":");
        let a = encode_json_string(actions);
        s.append(a.as_str());
        s.append(",\"detector\":");
        append_opt_json_string(&mut s, detector);
        s.append(",\"model\":");
        append_opt_json_string(&mut s, model);
        s.append("}");
        proof {
            assert(s@ =~= analyze_request_json(
                old(self).counter,
                frame@,
                actions@,
                opt_text(detector),
                opt_text(model),
            ));
        }
        s
    }

    /// Builds the `verify` request under a freshly drawn identifier.
    pub fn verify_request(
        &mut self,
        img1: &str,
        img2: &str,
        detector: Option<&str>,
        model: Option<&str>,
    ) -> (r: String)
        requires
            old(self).wf(),
            old(self).counter < u64::MAX,
        ensures
            final(self).wf(),
            final(self).counter == old(self).counter + 1,
            final(self).phase == old(self).phase,
            final(self).port == old(self).port,
            r@ == verify_request_json(
                old(self).counter,
                img1@,
                img2@,
                opt_text(detector),
                opt_text(model),
            ),
    {
        let id = self.next_request_id();
        let mut s = String::from_str("{\"requestId\":");
        let d = dec_string(id);
        s.append(d.as_str());
        s.append(",\"cmd\":\"verify\",\"img1\":");
        let i1 = encode_json_string(img1);
        s.append(i1.as_str());
        s.append(",\"img2\":");
        let i2 = encode_json_string(img2);
        s.append(i2.as_str());
        s.append(",\"detector\":");
        append_opt_json_string(&mut s, detector);
        s.append(",\"model\":");
        append_opt_json_string(&mut s, model);
        s.append("}");
        proof {
            assert(s@ =~= verify_request_json(
                old(self).counter,
                img1@,
                img2@,
                opt_text(detector),
                opt_text(model),
            ));
        }
        s
    }

    /// Builds the `detect` request under a freshly drawn identifier.
    pub fn detect_request(&mut self, frame: &str, detector: Option<&str>) -> (r: String)
        requires
            old(self).wf(),
            old(self).counter < u64::MAX,
        ensures
            final(self).wf(),
            final(self).counter == old(self).counter + 1,
            final(self).phase == old(self).phase,
            final(self).port == old(self).port,
            r@ == detect_request_json(old(self).counter, frame@, opt_text(detector)),
    {
        let id = self.next_request_id();
        let mut s = String::from_str("{\"requestId\":");
        let d = dec_string(id);
        s.append(d.as_str());
        s.append(",\"cmd\":\"detect\",\"frame\":");
        let f = encode_json_string(frame);
        s.append(f.as_str());
        s.append(",\"detector\":");
        append_opt_json_string(&mut s, detector);
        s.append("}");
        proof {
            assert(s@ =~= detect_request_json(old(self).counter, frame@, opt_text(detector)));
        }
        s
    }
}

/// What came back over the link for one outstanding request.
pub enum WorkerReplyEvent {
    /// A text frame arrived.
    TextReply(String),
    /// A frame arrived that is not text.
    OtherFrame,
    /// The link failed; the host's detail.
    TransportFailed(String),
    /// The link closed without a reply.
    LinkClosed,
}

/// Classifies the worker's reply to one call.  A text frame that is one
/// well-formed JSON text is passed through verbatim; every other outcome is
/// a distinct error, and none of them affects the link beyond this call.
pub fn handle_worker_reply(ev: WorkerReplyEvent) -> (r: Result<String, WorkerCallError>)
    ensures
        match ev {
            WorkerReplyEvent::TextReply(t) => {
                if json_wf(t@) {
                    r matches Ok(v) && v@ == t@
                } else {
                    r matches Err(e) && e is MalformedReply
                }
            },
            WorkerReplyEvent::OtherFrame => r matches Err(e) && e is UnexpectedFrame,
            WorkerReplyEvent::TransportFailed(d) => r matches Err(e) && (
            e matches WorkerCallError::Transport(d2) && d2@ == d@),
            WorkerReplyEvent::LinkClosed => r matches Err(e) && e is NoReply,
        },
{
    match ev {
        WorkerReplyEvent::TextReply(t) => {
            if check_json(t.as_str()) {
                Ok(t)
            } else {
                Err(WorkerCallError::MalformedReply)
            }
        },
        WorkerReplyEvent::OtherFrame => Err(WorkerCallError::UnexpectedFrame),
        WorkerReplyEvent::TransportFailed(d) => Err(WorkerCallError::Transport(d)),
        WorkerReplyEvent::LinkClosed => Err(WorkerCallError::NoReply),
    }
}

} // verus!
