use rustici::client::{
    call_request, on_call_reply, on_event_packet, on_event_wait_failure, on_register_reply,
    on_streaming_reply, on_unregister_reply, register_request, unregister_request, Step,
};
use rustici::packet::{Packet, PacketType};
use rustici::wire::Message;
use rustici::{Error, ErrorKind, IoFailure};

fn event(name: &str, value: &str) -> Packet {
    Packet::new(
        PacketType::Event,
        Some(name.to_string()),
        Some(Message::new().kv_str("v", value)),
    )
}

fn response(value: &str) -> Packet {
    Packet::new(
        PacketType::CmdResponse,
        None,
        Some(Message::new().kv_str("r", value)),
    )
}

/// Runs a plain call against the packets a peer sends, in order.
fn run_call(command: &str, replies: Vec<Packet>) -> Option<Result<Message, Error>> {
    for pkt in replies {
        match on_call_reply(command, pkt) {
            Step::Skip => continue,
            Step::Deliver(..) => panic!("a plain call hands out no event"),
            Step::Done(r) => return Some(r),
        }
    }
    None
}

/// Runs a streaming call against the packets a peer sends, in order.
fn run_streaming(
    command: &str,
    replies: Vec<Packet>,
    seen: &mut Vec<(String, Message)>,
) -> Option<Result<Message, Error>> {
    for pkt in replies {
        match on_streaming_reply(command, pkt) {
            Step::Skip => panic!("a streaming call skips nothing"),
            Step::Deliver(name, msg) => seen.push((name, msg)),
            Step::Done(r) => return Some(r),
        }
    }
    None
}

#[test]
fn requests_have_their_type_and_name() {
    let req = Message::new().kv_str("ike", "home");
    let pkt = call_request("initiate", &req);
    assert_eq!(
        pkt,
        Packet::new(PacketType::CmdRequest, Some("initiate".to_string()), Some(req))
    );
    assert_eq!(
        register_request("log"),
        Packet::new(PacketType::EventRegister, Some("log".to_string()), None)
    );
    assert_eq!(
        unregister_request("log"),
        Packet::new(PacketType::EventUnregister, Some("log".to_string()), None)
    );
    assert_eq!(register_request("x").encode().unwrap(), vec![3, 1, b'x']);
    assert_eq!(unregister_request("x").encode().unwrap(), vec![4, 1, b'x']);
}

#[test]
fn unknown_command_names_the_command() {
    let replies = vec![
        event("log", "ignored"),
        Packet::new(PacketType::CmdUnknown, None, None),
    ];
    match run_call("frob", replies) {
        Some(Err(Error::UnknownCommand(cmd))) => assert_eq!(cmd, "frob"),
        other => panic!("{:?}", other),
    }
    let mut seen = Vec::new();
    let replies = vec![Packet::new(PacketType::CmdUnknown, None, None)];
    match run_streaming("frob", replies, &mut seen) {
        Some(Err(Error::UnknownCommand(cmd))) => assert_eq!(cmd, "frob"),
        other => panic!("{:?}", other),
    }
    assert!(seen.is_empty());
}

#[test]
fn streaming_call_hands_out_events_in_order() {
    let replies = vec![event("a", "1"), event("b", "2"), response("done")];
    let mut seen = Vec::new();
    let result = run_streaming("list-sas", replies, &mut seen);
    assert_eq!(
        seen,
        vec![
            ("a".to_string(), Message::new().kv_str("v", "1")),
            ("b".to_string(), Message::new().kv_str("v", "2")),
        ]
    );
    assert_eq!(result.unwrap().unwrap(), Message::new().kv_str("r", "done"));
}

#[test]
fn plain_call_discards_events() {
    let replies = vec![event("a", "1"), event("b", "2"), response("done")];
    let result = run_call("list-sas", replies);
    assert_eq!(result.unwrap().unwrap(), Message::new().kv_str("r", "done"));
}

#[test]
fn call_is_pending_while_only_events_arrive() {
    assert!(run_call("c", vec![]).is_none());
    assert!(run_call("c", vec![event("a", "1"), event("b", "2")]).is_none());
}

#[test]
fn response_without_body_is_the_empty_message() {
    let bare = Packet::new(PacketType::CmdResponse, None, None);
    match on_call_reply("version", bare.clone()) {
        Step::Done(Ok(m)) => assert_eq!(m, Message::new()),
        other => panic!("{:?}", other),
    }
    match on_streaming_reply("version", bare) {
        Step::Done(Ok(m)) => assert_eq!(m, Message::new()),
        other => panic!("{:?}", other),
    }
}

#[test]
fn unexpected_packet_aborts_a_call() {
    for ty in [
        PacketType::CmdRequest,
        PacketType::EventRegister,
        PacketType::EventUnregister,
        PacketType::EventConfirm,
        PacketType::EventUnknown,
    ] {
        let name = if ty.is_named() { Some("n".to_string()) } else { None };
        let pkt = Packet::new(ty, name, None);
        match on_call_reply("c", pkt.clone()) {
            Step::Done(Err(e)) => assert_eq!(e.kind(), ErrorKind::Protocol),
            other => panic!("{:?}", other),
        }
        match on_streaming_reply("c", pkt) {
            Step::Done(Err(e)) => assert_eq!(e.kind(), ErrorKind::Protocol),
            other => panic!("{:?}", other),
        }
    }
}

#[test]
fn streamed_event_must_be_complete() {
    for pkt in [
        Packet::new(PacketType::Event, None, Some(Message::new())),
        Packet::new(PacketType::Event, Some("a".to_string()), None),
        Packet::new(PacketType::Event, None, None),
    ] {
        match on_streaming_reply("c", pkt.clone()) {
            Step::Done(Err(Error::Protocol(_))) => {}
            other => panic!("{:?}", other),
        }
        // A plain call does not look at the event at all.
        assert!(matches!(on_call_reply("c", pkt), Step::Skip));
    }
}

#[test]
fn registration_succeeds_only_on_confirm() {
    let confirm = Packet::new(PacketType::EventConfirm, None, None);
    assert!(on_register_reply(&confirm).is_ok());
    assert!(on_unregister_reply(&confirm).is_ok());
    for ty in [
        PacketType::CmdRequest,
        PacketType::CmdResponse,
        PacketType::CmdUnknown,
        PacketType::EventRegister,
        PacketType::EventUnregister,
        PacketType::EventUnknown,
        PacketType::Event,
    ] {
        let name = if ty.is_named() { Some("x".to_string()) } else { None };
        let pkt = Packet::new(ty, name, None);
        assert!(on_register_reply(&pkt).is_err());
        assert!(on_unregister_reply(&pkt).is_err());
    }
}

#[test]
fn registration_failure_is_a_distinct_error() {
    let refused = Packet::new(PacketType::EventUnknown, None, None);
    let stray = Packet::new(PacketType::CmdResponse, None, None);
    let event = event("x", "1");
    match on_register_reply(&refused) {
        Err(Error::Protocol(text)) => assert_eq!(text, "event registration failed"),
        other => panic!("{:?}", other),
    }
    match on_register_reply(&stray) {
        Err(Error::Protocol(text)) => assert_eq!(text, "unexpected packet after event register"),
        other => panic!("{:?}", other),
    }
    // No event is drained while a registration is answered.
    match on_register_reply(&event) {
        Err(Error::Protocol(text)) => assert_eq!(text, "unexpected packet after event register"),
        other => panic!("{:?}", other),
    }
    match on_unregister_reply(&refused) {
        Err(Error::Protocol(text)) => assert_eq!(text, "event deregistration failed"),
        other => panic!("{:?}", other),
    }
    match on_unregister_reply(&stray) {
        Err(Error::Protocol(text)) => {
            assert_eq!(text, "unexpected packet after event unregister")
        }
        other => panic!("{:?}", other),
    }
}

#[test]
fn next_event_skips_other_packets() {
    for ty in [
        PacketType::CmdRequest,
        PacketType::CmdResponse,
        PacketType::CmdUnknown,
        PacketType::EventRegister,
        PacketType::EventUnregister,
        PacketType::EventConfirm,
        PacketType::EventUnknown,
    ] {
        let name = if ty.is_named() { Some("x".to_string()) } else { None };
        let pkt = Packet::new(ty, name, Some(Message::new().list_end()));
        assert!(matches!(on_event_packet(pkt), Step::Skip));
    }
}

#[test]
fn next_event_returns_name_and_message() {
    match on_event_packet(event("ike-updown", "up")) {
        Step::Done(Ok((name, msg))) => {
            assert_eq!(name, "ike-updown");
            assert_eq!(msg, Message::new().kv_str("v", "up"));
        }
        other => panic!("{:?}", other),
    }
}

#[test]
fn next_event_rejects_incomplete_event() {
    for pkt in [
        Packet::new(PacketType::Event, None, Some(Message::new())),
        Packet::new(PacketType::Event, Some("a".to_string()), None),
    ] {
        match on_event_packet(pkt) {
            Step::Done(Err(e)) => assert_eq!(e.kind(), ErrorKind::Protocol),
            other => panic!("{:?}", other),
        }
    }
}

#[test]
fn stream_timeout_becomes_timeout() {
    assert!(matches!(
        on_event_wait_failure(Error::Io(IoFailure::TimedOut)),
        Error::Timeout
    ));
    assert!(matches!(
        on_event_wait_failure(Error::Io(IoFailure::WouldBlock)),
        Error::Timeout
    ));
    assert!(matches!(
        on_event_wait_failure(Error::from(IoFailure::TimedOut)),
        Error::Timeout
    ));
}

#[test]
fn other_failures_are_passed_on() {
    assert!(matches!(
        on_event_wait_failure(Error::Io(IoFailure::Other)),
        Error::Io(IoFailure::Other)
    ));
    assert!(matches!(
        on_event_wait_failure(Error::Protocol("unknown packet type")),
        Error::Protocol("unknown packet type")
    ));
    assert!(matches!(
        on_event_wait_failure(Error::TooLong("frame")),
        Error::TooLong("frame")
    ));
    match on_event_wait_failure(Error::UnknownCommand("c".to_string())) {
        Error::UnknownCommand(c) => assert_eq!(c, "c"),
        other => panic!("{:?}", other),
    }
    let bad = String::from_utf8(vec![0xff]).unwrap_err();
    assert!(matches!(on_event_wait_failure(Error::from(bad)), Error::Utf8(_)));
    assert!(matches!(on_event_wait_failure(Error::Timeout), Error::Timeout));
}

#[test]
fn error_kinds() {
    assert_eq!(Error::Io(IoFailure::Other).kind(), ErrorKind::Io);
    assert_eq!(Error::Protocol("p").kind(), ErrorKind::Protocol);
    assert_eq!(Error::UnknownCommand("c".to_string()).kind(), ErrorKind::UnknownCommand);
    assert_eq!(Error::TooLong("t").kind(), ErrorKind::TooLong);
    assert_eq!(Error::Timeout.kind(), ErrorKind::Timeout);
}
