//! Tests of the worker subsystem: the lifecycle state machine, readiness
//! detection, the request builders and the reply classification.

use face_relay::client::{WorkerCallError, WorkerReplyEvent};
use face_relay::license::{classify_validation, ValidationEvent};
use face_relay::{
    handle_worker_reply, is_ready_line, ReadyEvent, StopAction, WorkerError, WorkerSystem,
};

#[test]
fn start_sequence_reaches_running() {
    let mut w = WorkerSystem::new();
    let plan = w.begin_start(8765).unwrap();
    assert_eq!(plan.exe_rel_path, ["binaries", "deepface_cli", "deepface_cli.exe"]);
    assert_eq!(plan.args, ["serve", "--host", "127.0.0.1", "--port", "8765"]);
    assert_eq!(plan.ready_timeout_secs, 60);

    assert!(w.on_spawn_result(None).is_ok());
    let connect = w.on_ready_event(ReadyEvent::Signaled).unwrap();
    assert_eq!(connect.url, "ws://127.0.0.1:8765");
    assert!(w.on_connect_result(None).is_ok());
    assert!(w.begin_call().is_ok());
}

#[test]
fn second_start_without_stop_is_an_error() {
    let mut w = WorkerSystem::new();
    assert!(w.begin_start(8765).is_ok());
    let second = w.begin_start(8765);
    match second {
        Err(e) => {
            assert!(matches!(e, WorkerError::AlreadyRunning));
            assert_eq!(e.message(), "DeepFace server already started");
        }
        Ok(_) => panic!("a second start must not hand out a launch plan"),
    }

    // Still refused once the first start has fully completed.
    assert!(w.on_spawn_result(None).is_ok());
    assert!(w.on_ready_event(ReadyEvent::Signaled).is_ok());
    assert!(w.on_connect_result(None).is_ok());
    assert!(w.begin_start(8765).is_err());
}

#[test]
fn stop_without_a_worker_is_a_no_op() {
    let mut w = WorkerSystem::new();
    assert_eq!(w.request_stop(), StopAction::NoWorker);

    // After a full start, stop asks for termination, and a confirmed stop
    // allows a fresh start.
    w.begin_start(8080).unwrap();
    w.on_spawn_result(None).unwrap();
    w.on_ready_event(ReadyEvent::Signaled).unwrap();
    w.on_connect_result(None).unwrap();
    assert_eq!(w.request_stop(), StopAction::Terminate);
    w.confirm_stopped();
    assert_eq!(w.request_stop(), StopAction::NoWorker);
    assert!(w.begin_start(8080).is_ok());
}

#[test]
fn readiness_timeout_terminates_the_process() {
    let mut w = WorkerSystem::new();
    w.begin_start(8765).unwrap();
    w.on_spawn_result(None).unwrap();
    let failure = w.on_ready_event(ReadyEvent::TimedOut).unwrap_err();
    assert!(failure.terminate);
    assert_eq!(failure.error.message(), "Timeout waiting for DeepFace to start");
    // The failed start left nothing behind: a new start is allowed.
    assert!(w.begin_start(8765).is_ok());
}

#[test]
fn lost_readiness_signal_fails_the_start() {
    let mut w = WorkerSystem::new();
    w.begin_start(8765).unwrap();
    w.on_spawn_result(None).unwrap();
    let failure = w.on_ready_event(ReadyEvent::StreamEnded).unwrap_err();
    assert_eq!(failure.error.message(), "DeepFace startup signal failed");
}

#[test]
fn spawn_and_connect_failures_carry_the_detail() {
    let mut w = WorkerSystem::new();
    w.begin_start(8765).unwrap();
    let failure = w.on_spawn_result(Some(String::from("no such file"))).unwrap_err();
    assert!(!failure.terminate);
    assert_eq!(failure.error.message(), "Failed to start deepface_cli: no such file");

    w.begin_start(8765).unwrap();
    w.on_spawn_result(None).unwrap();
    w.on_ready_event(ReadyEvent::Signaled).unwrap();
    let failure = w.on_connect_result(Some(String::from("refused"))).unwrap_err();
    assert!(failure.terminate);
    assert_eq!(failure.error.message(), "Failed to connect WS: refused");
}

#[test]
fn calls_require_a_running_link() {
    let w = WorkerSystem::new();
    let refused = w.begin_call().unwrap_err();
    assert!(matches!(refused, WorkerCallError::NotConnected));
    assert_eq!(refused.message(), "DeepFace WS not started");
}

#[test]
fn ready_line_detection_matches_the_marker() {
    assert!(is_ready_line("WebSocket server started successfully"));
    assert!(is_ready_line("[deepface] WebSocket server started successfully on port 8765"));
    assert!(!is_ready_line("WebSocket server started"));
    assert!(!is_ready_line("loading model weights"));
    assert!(!is_ready_line(""));
}

#[test]
fn request_ids_are_strictly_increasing_across_builders() {
    let mut w = WorkerSystem::new();
    let a = w.analyze_request("f", "emotion", None, None);
    let v = w.verify_request("x", "y", None, None);
    let d = w.detect_request("z", None);
    let id_of = |text: &str| -> u64 {
        let parsed: serde_json::Value = serde_json::from_str(text).unwrap();
        parsed.get("requestId").unwrap().as_u64().unwrap()
    };
    let (ia, iv, id) = (id_of(&a), id_of(&v), id_of(&d));
    assert_eq!((ia, iv, id), (1, 2, 3));
    assert!(ia < iv && iv < id);
}

#[test]
fn analyze_request_serializes_exactly() {
    let mut w = WorkerSystem::new();
    let text = w.analyze_request("frame-1", "emotion,age", Some("retina"), None);
    assert_eq!(
        text,
        "{\"requestId\":1,\"cmd\":\"analyze\",\"frame\":\"frame-1\",\"actions\":\"emotion,age\",\"detector\":\"retina\",\"model\":null}"
    );
}

#[test]
fn verify_request_serializes_exactly() {
    let mut w = WorkerSystem::new();
    w.next_request_id();
    let text = w.verify_request("img one", "img\"two", None, Some("facenet"));
    assert_eq!(
        text,
        "{\"requestId\":2,\"cmd\":\"verify\",\"img1\":\"img one\",\"img2\":\"img\\\"two\",\"detector\":null,\"model\":\"facenet\"}"
    );
}

#[test]
fn detect_request_serializes_exactly() {
    let mut w = WorkerSystem::new();
    let text = w.detect_request("f", Some("opencv"));
    assert_eq!(text, "{\"requestId\":1,\"cmd\":\"detect\",\"frame\":\"f\",\"detector\":\"opencv\"}");
}

#[test]
fn worker_reply_passes_json_through_verbatim() {
    let reply = handle_worker_reply(WorkerReplyEvent::TextReply(String::from(
        "{\"emotion\": \"happy\"}",
    )));
    assert_eq!(reply.unwrap(), "{\"emotion\": \"happy\"}");
}

#[test]
fn worker_reply_errors_are_distinct() {
    let malformed =
        handle_worker_reply(WorkerReplyEvent::TextReply(String::from("not json"))).unwrap_err();
    assert!(matches!(malformed, WorkerCallError::MalformedReply));

    let unexpected = handle_worker_reply(WorkerReplyEvent::OtherFrame).unwrap_err();
    assert_eq!(unexpected.message(), "Unexpected WS message");

    let transport =
        handle_worker_reply(WorkerReplyEvent::TransportFailed(String::from("reset"))).unwrap_err();
    assert_eq!(transport.message(), "WS error: reset");

    let none = handle_worker_reply(WorkerReplyEvent::LinkClosed).unwrap_err();
    assert_eq!(none.message(), "No response from DeepFace");
}

#[test]
fn license_classification_is_exact() {
    assert_eq!(
        classify_validation(ValidationEvent::Verdict(true, String::from("License valid"))),
        Ok(String::from("License valid"))
    );
    assert_eq!(
        classify_validation(ValidationEvent::Verdict(false, String::from("License expired"))),
        Err(String::from("License expired"))
    );
    assert_eq!(classify_validation(ValidationEvent::UnreadableBody), Err(String::from("Parse error")));
    assert_eq!(
        classify_validation(ValidationEvent::HttpError(String::from("403 Forbidden"))),
        Err(String::from("HTTP error: 403 Forbidden"))
    );
    assert_eq!(
        classify_validation(ValidationEvent::NetworkError(String::from("timed out"))),
        Err(String::from("Network error: timed out"))
    );
}
