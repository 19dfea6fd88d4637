//! The events a session delivers to the application.

use vstd::prelude::*;
use crate::error::WStompError;

verus! {

/// The tagged outcome a session puts on its inbound channel. Exactly one
/// variant is populated per event.
#[derive(Debug)]
pub enum WStompEvent {
    /// A decoded STOMP frame from the server.
    Message(async_stomp::Message<async_stomp::FromServer>),
    /// The peer closed the WebSocket connection, with its reason if it gave
    /// one.
    WebsocketClosed(Option<awc::ws::CloseReason>),
    /// A WebSocket or STOMP failure inside the session.
    Error(WStompError),
}

impl From<WStompError> for WStompEvent {
    fn from(err: WStompError) -> (r: WStompEvent) {
        WStompEvent::Error(err)
    }
}

impl vstd::std_specs::convert::FromSpecImpl<WStompError> for WStompEvent {
    open spec fn obeys_from_spec() -> bool {
        true
    }

    open spec fn from_spec(t: WStompError) -> WStompEvent {
        WStompEvent::Error(t)
    }
}

} // verus!
