//! Composition of the STOMP CONNECT frame.
//!
//! A connect attempt resolves the URL into an authority and a host name,
//! gathers the configured headers and credentials, and sends one CONNECT
//! frame through the fresh transport. The composition rules live here; the
//! handshake itself is transport work outside this crate's verified
//! surface.

use vstd::prelude::*;
use vstd::string::StringExecFns;
use vstd::utf8::encode_utf8;

verus! {

/// Whether the frame's raw extra headers are exactly the UTF-8 encodings of
/// the given header pairs, in order.
pub open spec fn extra_headers_match(
    m: async_stomp::Message<async_stomp::ToServer>,
    headers: Seq<(String, String)>,
) -> bool {
    m.extra_headers@.len() == headers.len() && forall|i: int|
        0 <= i < headers.len() ==> #[trigger] m.extra_headers@[i].0@ == encode_utf8(
            headers[i].0@,
        ) && m.extra_headers@[i].1@ == encode_utf8(headers[i].1@)
}

/// Whether the frame's raw extra headers are exactly the UTF-8 encodings of
/// the given pairs followed by one Authorization header carrying the token.
pub open spec fn extra_headers_match_with_token(
    m: async_stomp::Message<async_stomp::ToServer>,
    headers: Seq<(String, String)>,
    t: String,
) -> bool {
    m.extra_headers@.len() == headers.len() + 1 && (forall|i: int|
        0 <= i < headers.len() ==> #[trigger] m.extra_headers@[i].0@ == encode_utf8(
            headers[i].0@,
        ) && m.extra_headers@[i].1@ == encode_utf8(headers[i].1@))
        && m.extra_headers@.last().0@ == encode_utf8("Authorization"@)
        && m.extra_headers@.last().1@ == encode_utf8(t@)
}

/// The single Authorization header carrying a bearer-style token.
pub fn headers_for_token(auth_token: String) -> (r: Vec<(String, String)>)
    ensures
        r@.len() == 1,
        r@[0].0@ == "Authorization"@,
        r@[0].1 == auth_token,
{
    let mut v: Vec<(String, String)> = Vec::new();
    v.push((String::from_str("Authorization"), auth_token));
    v
}

/// The CONNECT frame's extra headers: the configured ones, with the
/// Authorization header appended when a token is configured.
pub fn effective_headers(
    additional_headers: Vec<(String, String)>,
    auth_token: Option<String>,
) -> (r: Vec<(String, String)>)
    ensures
        auth_token is None ==> r@ == additional_headers@,
        auth_token matches Some(t) ==> r@.len() == additional_headers@.len() + 1 && r@.subrange(
            0,
            additional_headers@.len() as int,
        ) == additional_headers@ && r@.last().0@ == "Authorization"@ && r@.last().1 == t,
{
    let ghost ah = additional_headers@;
    match auth_token {
        None => additional_headers,
        Some(t) => {
            let mut v = additional_headers;
            let mut tok = headers_for_token(t);
            let h = tok.remove(0);
            v.push(h);
            proof {
                assert(v@.subrange(0, ah.len() as int) =~= ah);
            }
            v
        },
    }
}

/// The CONNECT credentials policy: the login and passcode are attached only
/// when both are present; otherwise the connection is anonymous.
pub fn credentials(login: Option<String>, passcode: Option<String>) -> (c: Option<(String, String)>)
    ensures
        (match (login, passcode) {
            (Some(l), Some(p)) => c == Some((l, p)),
            _ => c is None,
        }),
{
    match (login, passcode) {
        (Some(l), Some(p)) => Some((l, p)),
        _ => None,
    }
}

/// Whether `m` is a CONNECT frame with STOMP version "1.2", the given
/// virtualhost as its `host` header, exactly the given credentials, and no
/// heart-beat offer.
pub open spec fn is_connect_content(
    m: async_stomp::Message<async_stomp::ToServer>,
    virtualhost: String,
    login: Option<String>,
    passcode: Option<String>,
) -> bool {
    m.content matches async_stomp::ToServer::Connect {
        accept_version,
        host,
        login: l,
        passcode: p,
        heartbeat,
    } && accept_version@ == "1.2"@ && host == virtualhost && l == login && p == passcode
        && heartbeat is None
}

/// Relies on async_stomp's `Connector` builder and its `msg`: the CONNECT
/// frame it assembles has STOMP version "1.2", the virtualhost as its `host`
/// header, the given login and passcode, no heart-beat offer, and as raw
/// extra headers exactly the given pairs' UTF-8 bytes, in order.
#[verifier::external_body]
fn build_connect_msg_with_login(
    server: String,
    virtualhost: String,
    headers: Vec<(String, String)>,
    tls_server_name: String,
    login: String,
    passcode: String,
) -> (m: async_stomp::Message<async_stomp::ToServer>)
    ensures
        is_connect_content(m, virtualhost, Some(login), Some(passcode)),
        extra_headers_match(m, headers@),
{
    async_stomp::client::Connector::builder()
        .server(server)
        .virtualhost(virtualhost)
        .headers(headers)
        .use_tls(true)
        .tls_server_name(tls_server_name)
        .login(login)
        .passcode(passcode)
        .msg()
}

/// Relies on async_stomp's `Connector` builder and its `msg`: as
/// [`build_connect_msg_with_login`], but with no credentials attached.
#[verifier::external_body]
fn build_connect_msg_anonymous(
    server: String,
    virtualhost: String,
    headers: Vec<(String, String)>,
    tls_server_name: String,
) -> (m: async_stomp::Message<async_stomp::ToServer>)
    ensures
        is_connect_content(m, virtualhost, None, None),
        extra_headers_match(m, headers@),
{
    async_stomp::client::Connector::builder()
        .server(server)
        .virtualhost(virtualhost)
        .headers(headers)
        .use_tls(true)
        .tls_server_name(tls_server_name)
        .msg()
}

/// Compose the CONNECT frame exactly as a connect attempt sends it: server
/// and virtual host are both the URL's authority, the TLS server name is the
/// URL's host, credentials are attached only when both login and passcode
/// are configured, and the extra headers are the configured ones plus an
/// Authorization header when a token is configured.
pub fn compose_connect_message(
    authority: String,
    host_name: String,
    additional_headers: Vec<(String, String)>,
    auth_token: Option<String>,
    login: Option<String>,
    passcode: Option<String>,
) -> (m: async_stomp::Message<async_stomp::ToServer>)
    ensures
        (match (login, passcode) {
            (Some(lg), Some(pc)) => is_connect_content(m, authority, Some(lg), Some(pc)),
            _ => is_connect_content(m, authority, None, None),
        }),
        auth_token is None ==> extra_headers_match(m, additional_headers@),
        auth_token matches Some(t) ==> extra_headers_match_with_token(
            m,
            additional_headers@,
            t,
        ),
{
    let ghost ah = additional_headers@;
    let ghost tok = auth_token;
    let headers = effective_headers(additional_headers, auth_token);
    let ghost hv = headers@;
    let server = authority.clone();
    let m = match credentials(login, passcode) {
        Some((l, p)) => build_connect_msg_with_login(
            server,
            authority,
            headers,
            host_name,
            l,
            p,
        ),
        None => build_connect_msg_anonymous(server, authority, headers, host_name),
    };
    proof {
        if let Some(t) = tok {
            let n = ah.len() as int;
            assert forall|i: int| 0 <= i < n implies #[trigger] m.extra_headers@[i].0@
                == encode_utf8(ah[i].0@) && m.extra_headers@[i].1@ == encode_utf8(
                ah[i].1@,
            ) by {
                assert(hv.subrange(0, n)[i] == hv[i]);
                assert(hv[i] == ah[i]);
                assert(m.extra_headers@[i].0@ == encode_utf8(hv[i].0@));
                assert(m.extra_headers@[i].1@ == encode_utf8(hv[i].1@));
            }
            assert(hv.last() == hv[n]);
            assert(m.extra_headers@.last() == m.extra_headers@[n]);
            assert(m.extra_headers@[n].0@ == encode_utf8(hv[n].0@));
            assert(m.extra_headers@[n].1@ == encode_utf8(hv[n].1@));
            assert(extra_headers_match_with_token(m, ah, t));
        }
    }
    m
}

} // verus!
