use wstomp::connect::{compose_connect_message, credentials, effective_headers, headers_for_token};

fn connect_fields(
    m: &async_stomp::Message<async_stomp::ToServer>,
) -> (String, Option<String>, Option<String>, String) {
    match &m.content {
        async_stomp::ToServer::Connect { accept_version, host, login, passcode, heartbeat } => {
            assert!(heartbeat.is_none());
            (host.clone(), login.clone(), passcode.clone(), accept_version.clone())
        },
        other => panic!("expected a CONNECT frame, got {:?}", other),
    }
}

#[test]
fn headers_for_token_builds_authorization_header() {
    let h = headers_for_token("Bearer abc".to_string());
    assert_eq!(h.len(), 1);
    assert_eq!(h[0].0, "Authorization");
    assert_eq!(h[0].1, "Bearer abc");
}

#[test]
fn effective_headers_without_token_keeps_headers() {
    let h = effective_headers(vec![("x-a".to_string(), "1".to_string())], None);
    assert_eq!(h, vec![("x-a".to_string(), "1".to_string())]);
}

#[test]
fn effective_headers_appends_authorization_last() {
    let h = effective_headers(
        vec![("x-a".to_string(), "1".to_string())],
        Some("tok".to_string()),
    );
    assert_eq!(
        h,
        vec![
            ("x-a".to_string(), "1".to_string()),
            ("Authorization".to_string(), "tok".to_string())
        ]
    );
}

#[test]
fn credentials_require_both_parts() {
    assert_eq!(
        credentials(Some("u".to_string()), Some("p".to_string())),
        Some(("u".to_string(), "p".to_string()))
    );
    assert_eq!(credentials(Some("u".to_string()), None), None);
    assert_eq!(credentials(None, Some("p".to_string())), None);
    assert_eq!(credentials(None, None), None);
}

#[test]
fn connect_message_uses_authority_as_host() {
    let m = compose_connect_message(
        "broker.example:61613".to_string(),
        "broker.example".to_string(),
        vec![],
        None,
        None,
        None,
    );
    let (host, login, passcode, version) = connect_fields(&m);
    assert_eq!(host, "broker.example:61613");
    assert_eq!(login, None);
    assert_eq!(passcode, None);
    assert_eq!(version, "1.2");
    assert!(m.extra_headers.is_empty());
}

#[test]
fn connect_message_attaches_both_credentials() {
    let m = compose_connect_message(
        "broker.example:61613".to_string(),
        "broker.example".to_string(),
        vec![],
        None,
        Some("user".to_string()),
        Some("secret".to_string()),
    );
    let (_, login, passcode, _) = connect_fields(&m);
    assert_eq!(login, Some("user".to_string()));
    assert_eq!(passcode, Some("secret".to_string()));
}

#[test]
fn connect_message_drops_lone_login() {
    let m = compose_connect_message(
        "broker.example:61613".to_string(),
        "broker.example".to_string(),
        vec![],
        None,
        Some("user".to_string()),
        None,
    );
    let (_, login, passcode, _) = connect_fields(&m);
    assert_eq!(login, None);
    assert_eq!(passcode, None);
}

#[test]
fn connect_message_carries_token_header() {
    let m = compose_connect_message(
        "broker.example:61613".to_string(),
        "broker.example".to_string(),
        vec![("x-client".to_string(), "wstomp".to_string())],
        Some("Bearer tok".to_string()),
        None,
        None,
    );
    assert_eq!(
        m.extra_headers,
        vec![
            (b"x-client".to_vec(), b"wstomp".to_vec()),
            (b"Authorization".to_vec(), b"Bearer tok".to_vec())
        ]
    );
}
