//! The per-connection protocol of the relay server.
//!
//! After the WebSocket upgrade the connection is put through admission:
//! with a free permit it becomes active and is greeted; without one it is
//! sent a single busy message followed by a close frame and never the
//! greeting.  An active connection then loops: each text frame earns
//! exactly one response envelope (or a fixed error text when it is not a
//! parseable envelope — the connection stays open), a close frame ends the
//! session, and ping, pong and binary frames are ignored.

use vstd::prelude::*;
use vstd::string::StringExecFns;

use crate::codec::{parse_request_text, parsed_request, response_json, response_text};
use crate::dispatch::{dispatch, dispatch_spec};
use crate::gate::Gate;

verus! {

/// The greeting sent to every admitted connection before anything is read
/// from it.
pub open spec fn greeting_text() -> Seq<char> {
    "{\"status\":\"ok\",\"message\":\"Connected to Rust WS server\"}"@
}

/// The one message sent to a connection refused for capacity.
pub open spec fn busy_text() -> Seq<char> {
    "{\"status\":\"error\",\"message\":\"Server busy: too many connections\"}"@
}

/// The reply to a text frame that is not a parseable request envelope.
pub open spec fn invalid_json_text() -> Seq<char> {
    "{\"status\":\"error\",\"message\":\"Invalid JSON\"}"@
}

/// A frame to be written to the client.
pub enum OutFrame {
    TextOut(String),
    CloseOut,
}

/// A status notification for the hosting UI; sent fire-and-forget, never
/// awaited.
#[derive(PartialEq, Eq, Structural, Clone, Copy, Debug)]
pub enum Notice {
    /// A connection was admitted.
    Connected,
    /// A connection was refused for capacity.
    Rejected,
    /// A client ran `test_server_connection` successfully.
    ServerTested,
    /// A client sent a close frame.
    Disconnected,
}

impl Notice {
    /// The human-readable status text of the notification.
    pub open spec fn spec_message(self) -> Seq<char> {
        match self {
            Notice::Connected => "Connected."@,
            Notice::Rejected => "Connection rejected: server busy."@,
            Notice::ServerTested => "Connected (server connection tested successfully)."@,
            Notice::Disconnected => "Disconnected."@,
        }
    }

    /// The human-readable status text of the notification.
    pub fn message(&self) -> (r: String)
        ensures
            r@ == self.spec_message(),
    {
        match self {
            Notice::Connected => String::from_str("Connected."),
            Notice::Rejected => String::from_str("Connection rejected: server busy."),
            Notice::ServerTested => String::from_str(
                "Connected (server connection tested successfully).",
            ),
            Notice::Disconnected => String::from_str("Disconnected."),
        }
    }
}

/// What admission decided for one freshly upgraded connection: the frames
/// to write before anything is read, whether the connection goes active,
/// and the notification to emit when it was refused.
pub struct AdmitStep {
    pub send: Vec<OutFrame>,
    pub admitted: bool,
    pub notice: Option<Notice>,
}

/// Admits or refuses one freshly upgraded connection.  With a free permit
/// the permit is taken and the connection is to be greeted; with none the
/// pool is left unchanged and the connection is to be sent the busy
/// message, then a close frame, and nothing else — never the greeting.
pub fn admit_connection(gate: &mut Gate) -> (step: AdmitStep)
    requires
        old(gate).wf(),
    ensures
        final(gate).wf(),
        final(gate).capacity() == old(gate).capacity(),
        step.admitted == old(gate).has_room(),
        step.admitted ==> final(gate).active_count() == old(gate).active_count() + 1,
        !step.admitted ==> *final(gate) == *old(gate),
        step.admitted ==> step.send@.len() == 1 && (step.send@[0] matches OutFrame::TextOut(t)
            && t@ == greeting_text()) && step.notice == Some(Notice::Connected),
        !step.admitted ==> step.send@.len() == 2 && (step.send@[0] matches OutFrame::TextOut(t)
            && t@ == busy_text()) && step.send@[1] is CloseOut && step.notice == Some(
            Notice::Rejected,
        ),
{
    if gate.try_acquire() {
        let mut send: Vec<OutFrame> = Vec::new();
        send.push(
            OutFrame::TextOut(
                String::from_str("{\"status\":\"ok\",\"message\":\"Connected to Rust WS server\"}"),
            ),
        );
        AdmitStep { send, admitted: true, notice: Some(Notice::Connected) }
    } else {
        let mut send: Vec<OutFrame> = Vec::new();
        send.push(
            OutFrame::TextOut(
                String::from_str(
                    "{\"status\":\"error\",\"message\":\"Server busy: too many connections\"}",
                ),
            ),
        );
        send.push(OutFrame::CloseOut);
        AdmitStep { send, admitted: false, notice: Some(Notice::Rejected) }
    }
}

/// One frame read from an active connection.
pub enum Frame {
    Text(String),
    Binary(Vec<u8>),
    Ping,
    Pong,
    Close,
}

/// The model of an inbound frame.
pub enum FrameModel {
    Text(Seq<char>),
    Binary(Seq<u8>),
    Ping,
    Pong,
    Close,
}

impl View for Frame {
    type V = FrameModel;

    open spec fn view(&self) -> FrameModel {
        match self {
            Frame::Text(t) => FrameModel::Text(t@),
            Frame::Binary(b) => FrameModel::Binary(b@),
            Frame::Ping => FrameModel::Ping,
            Frame::Pong => FrameModel::Pong,
            Frame::Close => FrameModel::Close,
        }
    }
}

/// The model of what one frame earned.
pub struct FrameStepModel {
    pub reply: Option<Seq<char>>,
    pub notice: Option<Notice>,
    pub close: bool,
}

/// What one frame earned: at most one reply text to send, at most one
/// notification to emit, and whether the session is over.
pub struct FrameStep {
    pub reply: Option<String>,
    pub notice: Option<Notice>,
    pub close: bool,
}

impl View for FrameStep {
    type V = FrameStepModel;

    open spec fn view(&self) -> FrameStepModel {
        FrameStepModel {
            reply: match self.reply {
                Some(t) => Some(t@),
                None => None,
            },
            notice: self.notice,
            close: self.close,
        }
    }
}

/// The reply one text frame earns: the serialized response of dispatching
/// the decoded envelope, or the fixed error text when the frame is not a
/// parseable envelope.
pub open spec fn handle_text_spec(t: Seq<char>) -> Seq<char> {
    match parsed_request(t) {
        Some(q) => response_json(dispatch_spec(q)),
        None => invalid_json_text(),
    }
}

/// Whether a text frame is a successful `test_server_connection` request,
/// which additionally notifies the UI.
pub open spec fn text_notifies(t: Seq<char>) -> bool {
    match parsed_request(t) {
        Some(q) => q.command == "test_server_connection"@,
        None => false,
    }
}

/// What one frame earns on an active connection: a text frame exactly one
/// reply (the session stays open whatever the text held), a close frame the
/// end of the session with a disconnect notification, and ping, pong and
/// binary frames nothing.
pub open spec fn frame_step_spec(f: FrameModel) -> FrameStepModel {
    match f {
        FrameModel::Text(t) => FrameStepModel {
            reply: Some(handle_text_spec(t)),
            notice: if text_notifies(t) {
                Some(Notice::ServerTested)
            } else {
                None
            },
            close: false,
        },
        FrameModel::Close => FrameStepModel {
            reply: None,
            notice: Some(Notice::Disconnected),
            close: true,
        },
        _ => FrameStepModel { reply: None, notice: None, close: false },
    }
}

/// Computes the reply to one text frame.
pub fn handle_text(text: &str) -> (r: String)
    ensures
        r@ == handle_text_spec(text@),
{
    match parse_request_text(text) {
        Some(req) => {
            let resp = dispatch(req);
            response_text(&resp)
        },
        None => String::from_str("{\"status\":\"error\",\"message\":\"Invalid JSON\"}"),
    }
}

/// Handles one frame read from an active connection.
pub fn handle_frame(frame: Frame) -> (step: FrameStep)
    ensures
        step@ == frame_step_spec(frame@),
{
    match frame {
        Frame::Text(t) => {
            let step = match parse_request_text(t.as_str()) {
                Some(req) => {
                    let probe = String::from_str("test_server_connection");
                    let notifies = req.command == probe;
                    let resp = dispatch(req);
                    FrameStep {
                        reply: Some(response_text(&resp)),
                        notice: if notifies {
                            Some(Notice::ServerTested)
                        } else {
                            None
                        },
                        close: false,
                    }
                },
                None => FrameStep {
                    reply: Some(
                        String::from_str("{\"status\":\"error\",\"message\":\"Invalid JSON\"}"),
                    ),
                    notice: None,
                    close: false,
                },
            };
            step
        },
        Frame::Close => FrameStep {
            reply: None,
            notice: Some(Notice::Disconnected),
            close: true,
        },
        _ => FrameStep { reply: None, notice: None, close: false },
    }
}

/// Whether an outbound frame carries the greeting text.
pub open spec fn carries_greeting(f: OutFrame) -> bool {
    f matches OutFrame::TextOut(t) && t@ == greeting_text()
}

/// Connection attempts beyond capacity never raise the count of active
/// connections: an attempt on a full pool leaves the pool unchanged, the
/// excess client is sent exactly one busy message and then a close frame,
/// and no frame it is sent carries the greeting.
pub proof fn lemma_excess_connection_refused(pre: Gate, post: Gate, step: AdmitStep)
    requires
        pre.wf(),
        pre.active_count() == pre.capacity(),
        post.wf(),
        step.admitted == pre.has_room(),
        !step.admitted ==> post == pre,
        !step.admitted ==> step.send@.len() == 2 && (step.send@[0] matches OutFrame::TextOut(t)
            && t@ == busy_text()) && step.send@[1] is CloseOut,
    ensures
        !step.admitted,
        post.active_count() <= post.capacity(),
        post == pre,
        step.send@.len() == 2,
        step.send@[0] matches OutFrame::TextOut(t) && t@ == busy_text(),
        step.send@[1] is CloseOut,
        forall|i: int| 0 <= i < step.send@.len() ==> !carries_greeting(#[trigger] step.send@[i]),
{
    assert(busy_text() != greeting_text()) by {
        reveal_strlit("{\"status\":\"ok\",\"message\":\"Connected to Rust WS server\"}");
        reveal_strlit("{\"status\":\"error\",\"message\":\"Server busy: too many connections\"}");
        assert(busy_text().len() != greeting_text().len());
    }
}

/// A malformed text frame earns exactly the fixed `Invalid JSON` error
/// reply and leaves the connection open to further frames.
pub proof fn lemma_malformed_text_keeps_connection(t: Seq<char>)
    requires
        parsed_request(t) is None,
    ensures
        frame_step_spec(FrameModel::Text(t)).reply == Some(invalid_json_text()),
        !frame_step_spec(FrameModel::Text(t)).close,
{
}

} // verus!
