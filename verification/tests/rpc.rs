use coduck::error::Error;
use coduck::json::Json;
use coduck::process::{EndSignal, StopAction, StopEvent, StopStage};
use coduck::rpc::{is_answer, FrameReader, Rpc, ServerChild, MAX_FRAME, MAX_PENDING, RPC_TIMEOUT};

fn json(text: &str) -> Json {
    let line = format!("{text}\n");
    FrameReader::new().read_frame(line.as_bytes()).unwrap().frame.unwrap()
}

#[test]
fn request_preserves_interleaved_notifications_and_server_requests() {
    let mut rpc = Rpc::connect(None);
    let (id, request) = rpc.request("test", Json::object());
    assert!(request.at("id").same_id(&id));
    assert!(request.at("method").is_text("test"));
    let updated = json("{\"method\":\"updated\",\"params\":{}}");
    assert_eq!(rpc.await_answer(&id, updated), Ok(None));
    let approve = json("{\"id\":7,\"method\":\"approve\",\"params\":{}}");
    assert_eq!(rpc.await_answer(&id, approve), Ok(None));
    let answer = json("{\"result\":{\"ok\":true}}").with("id", id.clone());
    assert_eq!(rpc.await_answer(&id, answer), Ok(Some(json("{\"ok\":true}"))));
    assert!(rpc.recv().unwrap().at("method").is_text("updated"));
    assert!(rpc.recv().unwrap().at("method").is_text("approve"));
    assert!(rpc.recv().is_none());
}

#[test]
fn rejects_oversized_jsonl_without_waiting_for_newline() {
    let mut reader = FrameReader::new();
    let chunk = vec![b'x'; 1024 * 1024];
    for _ in 0..MAX_FRAME / chunk.len() {
        let received = reader.read_frame(&chunk).ok().unwrap();
        assert_eq!(received.consumed, chunk.len());
        assert!(received.frame.is_none());
    }
    let error = reader.read_frame(b"x").err().unwrap();
    assert_eq!(error.message(), "app-server message exceeds size limit");
}

#[test]
fn bounds_messages_buffered_during_private_request() {
    let mut rpc = Rpc::connect(None);
    let (id, _) = rpc.request("test", Json::object());
    for _ in 0..MAX_PENDING {
        assert_eq!(rpc.await_answer(&id, json("{\"method\":\"updated\"}")), Ok(None));
    }
    let error = rpc.await_answer(&id, json("{\"method\":\"updated\"}")).err().unwrap();
    assert_eq!(error.message(), "too many buffered app-server messages");
}

#[test]
fn private_requests_have_a_deadline() {
    assert_eq!(RPC_TIMEOUT, 30);
    assert_eq!(Error::RequestTimedOut.message(), "app-server request timed out");
}

#[test]
fn malformed_input_errors_do_not_contain_frame_contents() {
    let error = FrameReader::new().read_frame(b"secret-token-is-not-json\n").err().unwrap();
    assert_eq!(error.message(), "invalid app-server JSON");
}

#[test]
fn answers_of_other_forms_are_failures() {
    let mut rpc = Rpc::connect(None);
    let (id, _) = rpc.initialize(Json::object());
    let answer = |text: &str| json(text).with("id", id.clone());
    assert_eq!(rpc.await_answer(&id, answer("{\"error\":null}")), Err(Error::RequestFailed));
    assert_eq!(rpc.await_answer(&id, answer("{}")), Err(Error::InvalidResponse));
    assert!(is_answer(&answer("{}"), &id));
    assert!(!is_answer(&answer("{\"method\":null}"), &id));
    assert!(!is_answer(&json("{\"id\":1}"), &id));
    assert!(Rpc::initialized().at("method").is_text("initialized"));
}

#[test]
fn identifiers_count_up() {
    let mut rpc = Rpc::connect(None);
    for n in 1..=12 {
        assert!(rpc.next_id().is_text(&format!("coduck-{n}")));
        assert_eq!(rpc.sequence(), n);
    }
}

#[test]
fn a_frame_is_read_back_however_it_is_cut() {
    let frame = json("{\"text\":\"two\\nlines \\u00e9\",\"list\":[1,-2,3.5,null,true],\"nested\":{\"a\":{}}}");
    let mut line = Rpc::send(&frame).unwrap();
    assert_eq!(line.iter().filter(|byte| **byte == 10).count(), 1);
    assert_eq!(line.last(), Some(&10));
    line.extend_from_slice(b"[1]\n");
    for size in 1..line.len() {
        let mut reader = FrameReader::new();
        let mut rest: &[u8] = &line;
        let mut frames = Vec::new();
        while !rest.is_empty() {
            let chunk = &rest[..size.min(rest.len())];
            let received = reader.read_frame(chunk).ok().unwrap();
            frames.extend(received.frame);
            rest = &rest[received.consumed..];
        }
        assert_eq!(frames, vec![frame.clone(), json("[1]")]);
    }
}

#[test]
fn the_end_of_a_stream_is_a_disconnection() {
    assert_eq!(FrameReader::new().read_frame(b"").err(), Some(Error::Disconnected));
    let mut reader = FrameReader::new();
    reader.read_frame(b"{").ok().unwrap();
    assert_eq!(reader.read_frame(b"").err(), Some(Error::Disconnected));
}

#[test]
fn long_messages_are_not_sent() {
    let text = "x".repeat(MAX_FRAME - 2);
    assert_eq!(Rpc::send(&Json::text(&text)).unwrap().len(), MAX_FRAME + 1);
    let text = "x".repeat(MAX_FRAME - 1);
    assert_eq!(Rpc::send(&Json::text(&text)), Err(Error::MessageTooLarge));
}

#[test]
fn a_server_needs_both_of_its_ends() {
    let child = |output: bool, input: bool| Some(ServerChild { pid: Some(7), output, input });
    assert_eq!(Rpc::spawn(None).err(), Some(Error::CannotStartServer));
    assert_eq!(Rpc::spawn(child(false, false)).err(), Some(Error::MissingServerOutput));
    assert_eq!(Rpc::spawn(child(true, false)).err(), Some(Error::MissingServerInput));
    assert_eq!(Rpc::spawn(child(true, true)).ok().unwrap().pid(), Some(7));
}

#[test]
fn shutdown_reaps_the_owned_child() {
    let mut rpc = Rpc::connect(Some(7));
    assert!(rpc.pid().is_some());
    let (stage, action) = rpc.shutdown(true, StopStage::Begin, StopEvent::Done);
    assert!(matches!(action, StopAction::Signal { group: 7, signal: EndSignal::Terminate }));
    let (stage, action) = rpc.shutdown(true, stage, StopEvent::Done);
    assert!(matches!(action, StopAction::AwaitExit { group: 7 }));
    let (stage, action) = rpc.shutdown(true, stage, StopEvent::Failed(Error::CannotObserveExit));
    assert!(matches!(action, StopAction::Signal { group: 7, signal: EndSignal::Kill }));
    assert!(rpc.pid().is_some());
    let (stage, action) = rpc.shutdown(true, stage, StopEvent::Done);
    assert!(matches!(action, StopAction::Reap));
    assert!(rpc.pid().is_none());
    let (_, action) = rpc.shutdown(true, stage, StopEvent::Done);
    assert!(matches!(action, StopAction::Finish(Ok(()))));
    assert!(rpc.pid().is_none());
}

#[test]
fn a_server_that_cannot_be_signalled_keeps_its_group() {
    let mut rpc = Rpc::connect(Some(7));
    let (stage, _) = rpc.shutdown(true, StopStage::Begin, StopEvent::Done);
    let (_, action) = rpc.shutdown(true, stage, StopEvent::Failed(Error::CannotSignal));
    assert!(matches!(action, StopAction::Finish(Err(Error::CannotSignal))));
    assert_eq!(rpc.pid(), Some(7));
    let mut rpc = Rpc::connect(None);
    let (_, action) = rpc.shutdown(false, StopStage::Begin, StopEvent::Done);
    assert!(matches!(action, StopAction::Finish(Ok(()))));
}
