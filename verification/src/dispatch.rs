//! Command dispatch: an exact-match lookup from the command name of a
//! request envelope to the response envelope it earns.  Dispatch never
//! fails: an unmatched command produces a well-formed error response that
//! still echoes the command name and the request identifier.

use vstd::prelude::*;
use vstd::string::StringExecFns;

use crate::envelope::{ReqModel, Request, RespModel, Response, Status};

verus! {

/// The `data` field of the response to `test_server_connection`.
pub open spec fn alive_data() -> Seq<char> {
    "\"Server is alive!\""@
}

/// The `data` field of the response to `fetch_deepFaceCameraEmotionList`.
pub open spec fn emotion_list_data() -> Seq<char> {
    "[\"happy\",\"sad\",\"angry\"]"@
}

/// The `data` field of the response to an unrecognized command.
pub open spec fn unknown_command_data() -> Seq<char> {
    "{\"message\":\"Unknown command\"}"@
}

/// The commands the dispatch table recognizes.
pub open spec fn known_command(c: Seq<char>) -> bool {
    ||| c == "test_server_connection"@
    ||| c == "fetch_JSON"@
    ||| c == "fetch_deepFaceCameraEmotionList"@
}

/// The response a request envelope earns: `test_server_connection` answers
/// a fixed liveness text, `fetch_JSON` echoes the payload, and
/// `fetch_deepFaceCameraEmotionList` answers a fixed list; any other
/// command earns an error that names it unknown.  The request identifier
/// and the command are always echoed.
pub open spec fn dispatch_spec(q: ReqModel) -> RespModel {
    RespModel {
        request_id: q.request_id,
        status: if known_command(q.command) {
            Status::Success
        } else {
            Status::Error
        },
        command: q.command,
        data_json: if q.command == "test_server_connection"@ {
            alive_data()
        } else if q.command == "fetch_JSON"@ {
            q.payload_json
        } else if q.command == "fetch_deepFaceCameraEmotionList"@ {
            emotion_list_data()
        } else {
            unknown_command_data()
        },
    }
}

fn command_is(c: &String, lit: &str) -> (r: bool)
    ensures
        r == (c@ == lit@),
{
    let l = String::from_str(lit);
    *c == l
}

/// Dispatches one decoded request envelope to its handler and returns the
/// response envelope.
pub fn dispatch(req: Request) -> (r: Response)
    ensures
        r@ == dispatch_spec(req@),
{
    if command_is(&req.command, "test_server_connection") {
        Response {
            request_id: req.request_id,
            status: Status::Success,
            command: req.command,
            data_json: String::from_str("\"Server is alive!\""),
        }
    } else if command_is(&req.command, "fetch_JSON") {
        Response {
            request_id: req.request_id,
            status: Status::Success,
            command: req.command,
            data_json: req.payload_json,
        }
    } else if command_is(&req.command, "fetch_deepFaceCameraEmotionList") {
        Response {
            request_id: req.request_id,
            status: Status::Success,
            command: req.command,
            data_json: String::from_str("[\"happy\",\"sad\",\"angry\"]"),
        }
    } else {
        Response {
            request_id: req.request_id,
            status: Status::Error,
            command: req.command,
            data_json: String::from_str("{\"message\":\"Unknown command\"}"),
        }
    }
}

/// An unrecognized command earns an error response that still carries the
/// input command name and the fixed `Unknown command` message.
pub proof fn lemma_unknown_command_response(q: ReqModel)
    requires
        !known_command(q.command),
    ensures
        dispatch_spec(q).status == Status::Error,
        dispatch_spec(q).command == q.command,
        dispatch_spec(q).data_json == unknown_command_data(),
{
}

/// The request identifier round-trips exactly — the response carries the
/// identifier of the request, present or absent, for every command, known
/// or unknown; and the command name is always echoed.
pub proof fn lemma_request_id_round_trip(q: ReqModel)
    ensures
        dispatch_spec(q).request_id == q.request_id,
        dispatch_spec(q).command == q.command,
{
}

} // verus!
