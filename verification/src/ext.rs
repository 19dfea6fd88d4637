//! Declarations of the outside types that flow through the session.
//!
//! The session carries STOMP messages, transport errors and close reasons
//! through its logic without reading inside them; these declarations let
//! such values stand in verified signatures and fields.

use vstd::prelude::*;

verus! {

/// The error type of the STOMP codec's decode and encode.
#[verifier::external_type_specification]
#[verifier::external_body]
pub struct ExAnyhowError(anyhow::Error);

/// The transport-level WebSocket protocol error.
#[verifier::external_type_specification]
#[verifier::external_body]
pub struct ExWsProtocolError(awc::error::WsProtocolError);

/// The WebSocket handshake error.
#[verifier::external_type_specification]
#[verifier::external_body]
pub struct ExWsClientError(awc::error::WsClientError);

/// The reason a peer gives when closing a WebSocket connection.
#[verifier::external_type_specification]
#[verifier::external_body]
pub struct ExCloseReason(awc::ws::CloseReason);

/// A pre-built HTTP/WebSocket client a caller may supply.
#[verifier::external_type_specification]
#[verifier::external_body]
pub struct ExAwcClient(awc::Client);

/// The error a bounded channel returns when its receiver is gone.
#[verifier::external_type_specification]
#[verifier::external_body]
#[verifier::reject_recursive_types(T)]
pub struct ExSendError<T>(tokio::sync::mpsc::error::SendError<T>);

/// A STOMP message: its content plus extra headers. Declared with its
/// fields visible, so contracts can state what a built message holds.
#[verifier::external_type_specification]
#[verifier::reject_recursive_types(T)]
pub struct ExMessage<T>(async_stomp::Message<T>);

/// The acknowledgment mode of a STOMP subscription.
#[verifier::external_type_specification]
pub struct ExAckMode(async_stomp::AckMode);

/// A STOMP frame addressed to the server, CONNECT among its variants.
#[verifier::external_type_specification]
pub struct ExToServer(async_stomp::ToServer);

/// A STOMP frame received from the server.
#[verifier::external_type_specification]
pub struct ExFromServer(async_stomp::FromServer);

} // verus!
