//! Tests of the relay subsystem: admission, the per-connection frame loop,
//! envelope parsing, dispatch and serialization.

use face_relay::{admit_connection, handle_frame, handle_text, Frame, Gate, Notice, OutFrame};

#[test]
fn test_server_connection_scenario() {
    let reply = handle_text("{\"command\":\"test_server_connection\",\"payload\":{}}");
    assert_eq!(
        reply,
        "{\"requestId\":null,\"status\":\"ok\",\"command\":\"test_server_connection\",\"data\":\"Server is alive!\"}"
    );
}

#[test]
fn fetch_json_echoes_payload() {
    let reply = handle_text("{\"requestId\":7,\"command\":\"fetch_JSON\",\"payload\":{\"a\":1}}");
    assert_eq!(
        reply,
        "{\"requestId\":7,\"status\":\"ok\",\"command\":\"fetch_JSON\",\"data\":{\"a\":1}}"
    );
}

#[test]
fn emotion_list_is_fixed() {
    let reply = handle_text(
        "{\"requestId\":2,\"command\":\"fetch_deepFaceCameraEmotionList\",\"payload\":0}",
    );
    assert_eq!(
        reply,
        "{\"requestId\":2,\"status\":\"ok\",\"command\":\"fetch_deepFaceCameraEmotionList\",\"data\":[\"happy\",\"sad\",\"angry\"]}"
    );
}

#[test]
fn unknown_command_is_reported_and_echoed() {
    let reply = handle_text("{\"requestId\":3,\"command\":\"nope\",\"payload\":null}");
    assert_eq!(
        reply,
        "{\"requestId\":3,\"status\":\"error\",\"command\":\"nope\",\"data\":{\"message\":\"Unknown command\"}}"
    );
}

#[test]
fn request_id_round_trips_when_absent_or_null() {
    let absent = handle_text("{\"command\":\"fetch_JSON\",\"payload\":1}");
    assert_eq!(absent, "{\"requestId\":null,\"status\":\"ok\",\"command\":\"fetch_JSON\",\"data\":1}");
    let null = handle_text("{\"requestId\":null,\"command\":\"fetch_JSON\",\"payload\":1}");
    assert_eq!(null, absent);
    let unknown = handle_text("{\"command\":\"zzz\",\"payload\":1}");
    let parsed: serde_json::Value = serde_json::from_str(&unknown).unwrap();
    assert!(parsed.get("requestId").unwrap().is_null());
}

#[test]
fn command_is_escaped_in_the_response() {
    let reply = handle_text("{\"command\":\"a\\\"b\",\"payload\":0}");
    assert_eq!(
        reply,
        "{\"requestId\":null,\"status\":\"error\",\"command\":\"a\\\"b\",\"data\":{\"message\":\"Unknown command\"}}"
    );
    let parsed: serde_json::Value = serde_json::from_str(&reply).unwrap();
    assert_eq!(parsed.get("command").unwrap().as_str(), Some("a\"b"));
}

#[test]
fn malformed_text_earns_invalid_json() {
    let reply = handle_text("this is not json");
    assert_eq!(reply, "{\"status\":\"error\",\"message\":\"Invalid JSON\"}");
}

#[test]
fn envelope_without_payload_is_invalid() {
    let reply = handle_text("{\"command\":\"fetch_JSON\"}");
    assert_eq!(reply, "{\"status\":\"error\",\"message\":\"Invalid JSON\"}");
}

#[test]
fn envelope_without_command_is_invalid() {
    let reply = handle_text("{\"payload\":{}}");
    assert_eq!(reply, "{\"status\":\"error\",\"message\":\"Invalid JSON\"}");
}

#[test]
fn envelope_with_bad_request_id_is_invalid() {
    let negative = handle_text("{\"requestId\":-1,\"command\":\"fetch_JSON\",\"payload\":0}");
    assert_eq!(negative, "{\"status\":\"error\",\"message\":\"Invalid JSON\"}");
    let textual = handle_text("{\"requestId\":\"7\",\"command\":\"fetch_JSON\",\"payload\":0}");
    assert_eq!(textual, "{\"status\":\"error\",\"message\":\"Invalid JSON\"}");
}

#[test]
fn malformed_text_keeps_the_session_open() {
    let step = handle_frame(Frame::Text(String::from("{broken")));
    assert!(!step.close);
    assert_eq!(
        step.reply.as_deref(),
        Some("{\"status\":\"error\",\"message\":\"Invalid JSON\"}")
    );
    assert_eq!(step.notice, None);
}

#[test]
fn close_frame_ends_the_session() {
    let step = handle_frame(Frame::Close);
    assert!(step.close);
    assert_eq!(step.reply, None);
    assert_eq!(step.notice, Some(Notice::Disconnected));
}

#[test]
fn ping_pong_and_binary_are_ignored() {
    for frame in [Frame::Ping, Frame::Pong, Frame::Binary(vec![1u8, 2, 3])] {
        let step = handle_frame(frame);
        assert!(!step.close);
        assert!(step.reply.is_none());
        assert!(step.notice.is_none());
    }
}

#[test]
fn test_command_notifies_the_ui() {
    let step = handle_frame(Frame::Text(String::from(
        "{\"command\":\"test_server_connection\",\"payload\":{}}",
    )));
    assert_eq!(step.notice, Some(Notice::ServerTested));
    assert_eq!(
        Notice::ServerTested.message(),
        "Connected (server connection tested successfully)."
    );
}

#[test]
fn admission_is_bounded() {
    let mut gate = Gate::new(1);
    assert!(gate.try_acquire());
    assert!(!gate.try_acquire());
    gate.release();
    assert!(gate.try_acquire());
}

#[test]
fn excess_connection_gets_busy_then_close_never_greeting() {
    let mut gate = Gate::new(1);

    let first = admit_connection(&mut gate);
    assert!(first.admitted);
    assert_eq!(first.send.len(), 1);
    let greeting = match &first.send[0] {
        OutFrame::TextOut(t) => t.clone(),
        OutFrame::CloseOut => panic!("an admitted connection is greeted, not closed"),
    };
    assert_eq!(greeting, "{\"status\":\"ok\",\"message\":\"Connected to Rust WS server\"}");
    assert_eq!(first.notice, Some(Notice::Connected));

    let second = admit_connection(&mut gate);
    assert!(!second.admitted);
    assert_eq!(second.send.len(), 2);
    match &second.send[0] {
        OutFrame::TextOut(t) => {
            assert_eq!(t, "{\"status\":\"error\",\"message\":\"Server busy: too many connections\"}");
            assert_ne!(t, &greeting);
        }
        OutFrame::CloseOut => panic!("busy message expected before the close frame"),
    }
    assert!(matches!(second.send[1], OutFrame::CloseOut));
    assert_eq!(second.notice, Some(Notice::Rejected));

    // The admitted connection stays usable after the rejection.
    let step = handle_frame(Frame::Text(String::from(
        "{\"requestId\":9,\"command\":\"fetch_JSON\",\"payload\":[true]}",
    )));
    assert_eq!(
        step.reply.as_deref(),
        Some("{\"requestId\":9,\"status\":\"ok\",\"command\":\"fetch_JSON\",\"data\":[true]}")
    );

    // Once it disconnects, its permit admits the next attempt.
    gate.release();
    let third = admit_connection(&mut gate);
    assert!(third.admitted);
}

#[test]
fn decimal_rendering_is_exact() {
    assert_eq!(face_relay::numtext::dec_string(0), "0");
    assert_eq!(face_relay::numtext::dec_string(10), "10");
    assert_eq!(face_relay::numtext::dec_string(9007199254740993), "9007199254740993");
    assert_eq!(face_relay::numtext::dec_string(u64::MAX), "18446744073709551615");
}
