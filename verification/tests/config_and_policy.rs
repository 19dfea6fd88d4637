use wstomp::config::WStompConfig;
use wstomp::error::{WStompConnectError, WStompError};
use wstomp::supervisor::{RetryDirective, Supervisor};

#[test]
fn config_defaults_are_empty() {
    let c = WStompConfig::new("ws://broker.example/ws".to_string());
    assert_eq!(c.get_url().as_str(), "ws://broker.example/ws");
    let opts = c.get_opts();
    assert!(!opts.ssl);
    assert!(opts.auth_token.is_none());
    assert!(opts.login.is_none());
    assert!(opts.passcode.is_none());
    assert!(opts.additional_headers.is_empty());
    assert!(opts.client.is_none());
}

#[test]
fn config_setters_chain() {
    let c = WStompConfig::new("wss://broker.example/ws".to_string())
        .ssl()
        .auth_token("tok".to_string())
        .login("user".to_string())
        .passcode("secret".to_string());
    let (url, opts) = c.into_inner();
    assert_eq!(url, "wss://broker.example/ws");
    assert!(opts.ssl);
    assert_eq!(opts.auth_token.as_deref(), Some("tok"));
    assert_eq!(opts.login.as_deref(), Some("user"));
    assert_eq!(opts.passcode.as_deref(), Some("secret"));
}

#[test]
fn add_headers_extends_in_order() {
    let c = WStompConfig::new("ws://broker.example/ws".to_string())
        .add_headers(vec![("a".to_string(), "1".to_string())])
        .add_headers(vec![("b".to_string(), "2".to_string()), ("c".to_string(), "3".to_string())]);
    assert_eq!(
        c.get_opts().additional_headers,
        vec![
            ("a".to_string(), "1".to_string()),
            ("b".to_string(), "2".to_string()),
            ("c".to_string(), "3".to_string())
        ]
    );
}

#[test]
fn supervisor_retries_after_every_outcome() {
    let sup = Supervisor::new();
    let ok: Result<(), WStompConnectError> = Ok(());
    let err: Result<(), WStompConnectError> =
        Err(WStompConnectError::WsClientError(awc::error::WsClientError::InvalidUpgradeHeader));
    assert_eq!(sup.after_attempt(&ok), RetryDirective { retry: true, delay_secs: 3 });
    assert_eq!(sup.after_attempt(&err), RetryDirective { retry: true, delay_secs: 3 });
}

#[test]
fn supervisor_delay_is_configurable() {
    let sup = Supervisor::with_delay(7);
    let ok: Result<(), WStompConnectError> = Ok(());
    assert_eq!(sup.after_attempt(&ok), RetryDirective { retry: true, delay_secs: 7 });
}

#[test]
fn error_messages_name_their_kind() {
    let e = WStompError::IncompleteStompFrame;
    assert_eq!(e.message(), "STOMP decoding warning: Dropped incomplete frame");
    let e = WStompError::WsSend(awc::error::WsProtocolError::UnmaskedFrame);
    assert!(e.message().starts_with("WebSocket send error: "));
    let e = WStompError::WsReceive(awc::error::WsProtocolError::UnmaskedFrame);
    assert!(e.message().starts_with("WebSocket receive error: "));
    let e = WStompError::StompDecoding(anyhow::Error::msg("bad"));
    assert!(e.message().starts_with("STOMP decoding error: "));
    let e = WStompError::StompEncoding(anyhow::Error::msg("bad"));
    assert!(e.message().starts_with("STOMP encoding error: "));
    let e =
        WStompConnectError::WsClientError(awc::error::WsClientError::MissingConnectionHeader);
    assert!(e.message().starts_with("WebSocket receive error: "));
}

#[test]
fn event_from_error_wraps_it() {
    let ev: wstomp::event::WStompEvent = WStompError::IncompleteStompFrame.into();
    assert!(matches!(
        ev,
        wstomp::event::WStompEvent::Error(WStompError::IncompleteStompFrame)
    ));
}
