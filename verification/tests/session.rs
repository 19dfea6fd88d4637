use wstomp::error::WStompError;
use wstomp::event::WStompEvent;
use wstomp::session::{Session, SessionAction, WsIncoming};

const WIRE_MESSAGE: &[u8] = b"MESSAGE\ndestination:queue.test\nmessage-id:1\nsubscription:sub-1\n\nhi\0";

fn encoded(msg: async_stomp::Message<async_stomp::ToServer>) -> Vec<u8> {
    let mut codec = async_stomp::client::ClientCodec::new();
    let mut buf = bytes::BytesMut::new();
    tokio_util::codec::Encoder::encode(&mut codec, msg, &mut buf).unwrap();
    buf.to_vec()
}

fn send_frame(body: &[u8]) -> async_stomp::Message<async_stomp::ToServer> {
    async_stomp::Message {
        content: async_stomp::ToServer::Send {
            destination: "queue.test".to_string(),
            transaction: None,
            headers: None,
            body: Some(body.to_vec()),
        },
        extra_headers: vec![],
    }
}

fn expect_message_event(action: &SessionAction) -> &async_stomp::Message<async_stomp::FromServer> {
    match action {
        SessionAction::Emit(WStompEvent::Message(m)) => m,
        other => panic!("expected a Message event, got {:?}", other_debug(other)),
    }
}

fn other_debug(action: &SessionAction) -> String {
    match action {
        SessionAction::SendPong(b) => format!("SendPong({:?})", b),
        SessionAction::SendBinary(b) => format!("SendBinary({:?})", b),
        SessionAction::SendPing(b) => format!("SendPing({:?})", b),
        SessionAction::Emit(e) => format!("Emit({:?})", e),
    }
}

#[test]
fn ping_yields_pong_with_same_payload() {
    let mut s = Session::new();
    let out = s.on_ws_frame(WsIncoming::Ping(vec![1, 2, 3]));
    assert_eq!(out.actions.len(), 1);
    match &out.actions[0] {
        SessionAction::SendPong(p) => assert_eq!(p, &vec![1, 2, 3]),
        other => panic!("expected SendPong, got {}", other_debug(other)),
    }
    assert!(!s.is_terminated());
}

#[test]
fn pong_is_ignored() {
    let mut s = Session::new();
    let out = s.on_ws_frame(WsIncoming::Pong(vec![9, 9]));
    assert!(out.actions.is_empty());
    assert!(!s.is_terminated());
}

#[test]
fn standalone_binary_decodes_message() {
    let mut s = Session::new();
    let out = s.on_ws_frame(WsIncoming::Binary(WIRE_MESSAGE.to_vec()));
    assert_eq!(out.actions.len(), 1);
    let m = expect_message_event(&out.actions[0]);
    match &m.content {
        async_stomp::FromServer::Message { destination, body, .. } => {
            assert_eq!(destination, "queue.test");
            assert_eq!(body.as_deref(), Some(&b"hi"[..]));
        },
        other => panic!("expected FromServer::Message, got {:?}", other),
    }
    assert!(!s.is_terminated());
}

#[test]
fn standalone_text_decodes_message() {
    let mut s = Session::new();
    let out = s.on_ws_frame(WsIncoming::Text(WIRE_MESSAGE.to_vec()));
    assert_eq!(out.actions.len(), 1);
    let m = expect_message_event(&out.actions[0]);
    match &m.content {
        async_stomp::FromServer::Message { destination, .. } => {
            assert_eq!(destination, "queue.test");
        },
        other => panic!("expected FromServer::Message, got {:?}", other),
    }
}

#[test]
fn fragmented_message_reassembles() {
    let mut s = Session::new();
    let (a, rest) = WIRE_MESSAGE.split_at(10);
    let (b, c) = rest.split_at(17);
    let out1 = s.on_ws_frame(WsIncoming::ContinuationFirst(a.to_vec()));
    assert!(out1.actions.is_empty());
    let out2 = s.on_ws_frame(WsIncoming::ContinuationMiddle(b.to_vec()));
    assert!(out2.actions.is_empty());
    let out3 = s.on_ws_frame(WsIncoming::ContinuationLast(c.to_vec()));
    assert_eq!(out3.actions.len(), 1);
    let m = expect_message_event(&out3.actions[0]);
    match &m.content {
        async_stomp::FromServer::Message { destination, message_id, body, .. } => {
            assert_eq!(destination, "queue.test");
            assert_eq!(message_id, "1");
            assert_eq!(body.as_deref(), Some(&b"hi"[..]));
        },
        other => panic!("expected FromServer::Message, got {:?}", other),
    }
    assert!(!s.is_terminated());
}

#[test]
fn first_fragment_discards_stale_bytes() {
    let mut s = Session::new();
    // A partial fragment arrives, then the message restarts from scratch.
    let out0 = s.on_ws_frame(WsIncoming::ContinuationFirst(b"GARBAGE".to_vec()));
    assert!(out0.actions.is_empty());
    let out1 = s.on_ws_frame(WsIncoming::ContinuationFirst(WIRE_MESSAGE.to_vec()));
    assert!(out1.actions.is_empty());
    let out2 = s.on_ws_frame(WsIncoming::ContinuationLast(Vec::new()));
    assert_eq!(out2.actions.len(), 1);
    expect_message_event(&out2.actions[0]);
}

#[test]
fn decode_error_is_fatal() {
    let mut s = Session::new();
    let out = s.on_ws_frame(WsIncoming::Binary(b"123\n\n\x00".to_vec()));
    assert_eq!(out.actions.len(), 1);
    assert!(matches!(
        out.actions[0],
        SessionAction::Emit(WStompEvent::Error(WStompError::StompDecoding(_)))
    ));
    assert!(s.is_terminated());
    // No further events after the fatal error.
    let after = s.on_ws_frame(WsIncoming::Binary(WIRE_MESSAGE.to_vec()));
    assert!(after.actions.is_empty());
}

#[test]
fn incomplete_frame_is_fatal() {
    let mut s = Session::new();
    let out = s.on_ws_frame(WsIncoming::Binary(b"MESSAGE\ndestination:q\n".to_vec()));
    assert_eq!(out.actions.len(), 1);
    assert!(matches!(
        out.actions[0],
        SessionAction::Emit(WStompEvent::Error(WStompError::IncompleteStompFrame))
    ));
    assert!(s.is_terminated());
    let after = s.on_ws_frame(WsIncoming::Ping(vec![1]));
    assert!(after.actions.is_empty());
}

#[test]
fn close_propagates_reason() {
    let mut s = Session::new();
    let reason = awc::ws::CloseReason {
        code: awc::ws::CloseCode::Normal,
        description: Some("bye".to_string()),
    };
    let out = s.on_ws_frame(WsIncoming::Close(Some(reason)));
    assert_eq!(out.actions.len(), 1);
    match &out.actions[0] {
        SessionAction::Emit(WStompEvent::WebsocketClosed(Some(r))) => {
            assert_eq!(r.code, awc::ws::CloseCode::Normal);
            assert_eq!(r.description.as_deref(), Some("bye"));
        },
        other => panic!("expected WebsocketClosed, got {}", other_debug(other)),
    }
    assert!(s.is_terminated());
    // Exactly one Closed event: nothing follows.
    let after = s.on_heartbeat_tick();
    assert!(after.actions.is_empty());
}

#[test]
fn outbound_sends_encoded_bytes() {
    let mut s = Session::new();
    let out = s.on_outbound(send_frame(b"hello"));
    assert_eq!(out.actions.len(), 1);
    match &out.actions[0] {
        SessionAction::SendBinary(bytes) => {
            assert_eq!(bytes, &encoded(send_frame(b"hello")));
        },
        other => panic!("expected SendBinary, got {}", other_debug(other)),
    }
    assert!(!s.is_terminated());
}

#[test]
fn outbound_order_preserved() {
    let mut s = Session::new();
    let mut sent: Vec<Vec<u8>> = Vec::new();
    for body in [&b"one"[..], &b"two"[..], &b"three"[..]] {
        let out = s.on_outbound(send_frame(body));
        for a in &out.actions {
            if let SessionAction::SendBinary(bytes) = a {
                sent.push(bytes.clone());
            }
        }
    }
    assert_eq!(
        sent,
        vec![
            encoded(send_frame(b"one")),
            encoded(send_frame(b"two")),
            encoded(send_frame(b"three"))
        ]
    );
}

#[test]
fn encode_failure_does_not_terminate() {
    let mut s = Session::new();
    let out = s.apply_encode_result(Err(anyhow::Error::msg("boom")));
    assert_eq!(out.actions.len(), 1);
    assert!(matches!(
        out.actions[0],
        SessionAction::Emit(WStompEvent::Error(WStompError::StompEncoding(_)))
    ));
    assert!(!s.is_terminated());
    // The next outbound frame is still delivered, carrying exactly its own
    // encoding: no residue of the failed frame precedes it.
    let out2 = s.on_outbound(send_frame(b"after"));
    assert_eq!(out2.actions.len(), 1);
    match &out2.actions[0] {
        SessionAction::SendBinary(bytes) => {
            assert_eq!(bytes, &encoded(send_frame(b"after")));
        },
        other => panic!("expected SendBinary, got {}", other_debug(other)),
    }
}

#[test]
fn heartbeat_tick_sends_ping() {
    let mut s = Session::new();
    let out = s.on_heartbeat_tick();
    assert_eq!(out.actions.len(), 1);
    match &out.actions[0] {
        SessionAction::SendPing(p) => assert_eq!(p, &b"wstomp".to_vec()),
        other => panic!("expected SendPing, got {}", other_debug(other)),
    }
    assert_eq!(s.heartbeat_period_secs(), 20);
}

#[test]
fn heartbeat_period_is_configurable() {
    let mut s = Session::with_heartbeat_period(5);
    assert_eq!(s.heartbeat_period_secs(), 5);
    let out = s.on_heartbeat_tick();
    assert_eq!(out.actions.len(), 1);
}

#[test]
fn pong_send_failure_is_fatal() {
    let mut s = Session::new();
    let out = s.on_pong_send_failed(awc::error::WsProtocolError::UnmaskedFrame);
    assert_eq!(out.actions.len(), 1);
    assert!(matches!(
        out.actions[0],
        SessionAction::Emit(WStompEvent::Error(WStompError::WsSend(_)))
    ));
    assert!(s.is_terminated());
}

#[test]
fn binary_send_failure_is_fatal() {
    let mut s = Session::new();
    let out = s.on_binary_send_failed(awc::error::WsProtocolError::UnmaskedFrame);
    assert_eq!(out.actions.len(), 1);
    assert!(matches!(
        out.actions[0],
        SessionAction::Emit(WStompEvent::Error(WStompError::WsSend(_)))
    ));
    assert!(s.is_terminated());
}

#[test]
fn ping_send_failure_is_reported_not_fatal() {
    let mut s = Session::new();
    let out = s.on_ping_send_failed(awc::error::WsProtocolError::UnmaskedFrame);
    assert_eq!(out.actions.len(), 1);
    assert!(matches!(
        out.actions[0],
        SessionAction::Emit(WStompEvent::Error(WStompError::WsSend(_)))
    ));
    assert!(!s.is_terminated());
    // The session carries on: the next tick still pings.
    let out2 = s.on_heartbeat_tick();
    assert_eq!(out2.actions.len(), 1);
    assert!(matches!(out2.actions[0], SessionAction::SendPing(_)));
}

#[test]
fn read_failure_is_fatal() {
    let mut s = Session::new();
    let out = s.on_read_failed(awc::error::WsProtocolError::UnmaskedFrame);
    assert_eq!(out.actions.len(), 1);
    assert!(matches!(
        out.actions[0],
        SessionAction::Emit(WStompEvent::Error(WStompError::WsReceive(_)))
    ));
    assert!(s.is_terminated());
    // No further events after the fatal error.
    let after = s.on_ws_frame(WsIncoming::Ping(vec![1]));
    assert!(after.actions.is_empty());
}

#[test]
fn sources_closing_terminates_silently() {
    let mut s = Session::new();
    s.on_sources_closed();
    assert!(s.is_terminated());
    let mut s2 = Session::new();
    s2.on_event_delivery_failed();
    assert!(s2.is_terminated());
}

#[test]
fn end_to_end_echo_scenario() {
    // A server echoes one STOMP MESSAGE as a single Binary WebSocket frame,
    // and the application sends one frame back.
    let mut s = Session::new();
    let inbound = s.on_ws_frame(WsIncoming::Binary(WIRE_MESSAGE.to_vec()));
    assert_eq!(inbound.actions.len(), 1);
    let m = expect_message_event(&inbound.actions[0]);
    match &m.content {
        async_stomp::FromServer::Message { destination, message_id, subscription, body, .. } => {
            assert_eq!(destination, "queue.test");
            assert_eq!(message_id, "1");
            assert_eq!(subscription, "sub-1");
            assert_eq!(body.as_deref(), Some(&b"hi"[..]));
        },
        other => panic!("expected FromServer::Message, got {:?}", other),
    }
    let outbound = s.on_outbound(send_frame(b"hello"));
    assert_eq!(outbound.actions.len(), 1);
    match &outbound.actions[0] {
        SessionAction::SendBinary(bytes) => {
            assert_eq!(bytes, &encoded(send_frame(b"hello")));
        },
        other => panic!("expected SendBinary, got {}", other_debug(other)),
    }
    assert!(!s.is_terminated());
}
