//! The error vocabulary of the client.
//!
//! Connect-time failures surface synchronously from the connect calls, before
//! any session exists. Session-level failures are carried to the application
//! as events on the inbound channel.

use vstd::prelude::*;
use vstd::string::StringExecFns;

verus! {

/// A failure before the session starts: the WebSocket handshake, or the
/// send of the initial CONNECT frame.
#[derive(Debug)]
pub enum WStompConnectError {
    /// The WebSocket client could not complete the handshake.
    WsClientError(awc::error::WsClientError),
    /// The CONNECT frame could not be handed to the session.
    ConnectMessageFailed(
        tokio::sync::mpsc::error::SendError<async_stomp::Message<async_stomp::ToServer>>,
    ),
}

/// A failure inside a live session, combining WebSocket and STOMP errors.
#[derive(Debug)]
pub enum WStompError {
    /// The transport failed while a WebSocket frame was being received.
    WsReceive(awc::error::WsProtocolError),
    /// The transport failed while a WebSocket frame was being sent.
    WsSend(awc::error::WsProtocolError),
    /// The STOMP codec rejected a received payload.
    StompDecoding(anyhow::Error),
    /// The STOMP codec rejected an outbound frame.
    StompEncoding(anyhow::Error),
    /// The WebSocket message ended but the payload held no complete STOMP
    /// frame; the session treats this as fatal.
    IncompleteStompFrame,
}

impl WStompConnectError {
    /// A human-readable description. Both variants share the receive-error
    /// prefix.
    pub fn message(&self) -> (r: String)
        ensures
            exists|d: Seq<char>| r@ == "WebSocket receive error: "@ + d,
    {
        let mut s = String::from_str("WebSocket receive error: ");
        let ghost prefix = s@;
        match self {
            WStompConnectError::WsClientError(e) => {
                let d = e.to_string();
                proof {
                    assert(prefix + d@ == "WebSocket receive error: "@ + d@);
                }
                s.append(d.as_str());
            },
            WStompConnectError::ConnectMessageFailed(e) => {
                let d = e.to_string();
                proof {
                    assert(prefix + d@ == "WebSocket receive error: "@ + d@);
                }
                s.append(d.as_str());
            },
        }
        s
    }
}

impl WStompError {
    /// The description prefix of each variant.
    pub open spec fn prefix_spec(&self) -> Seq<char> {
        match self {
            WStompError::WsReceive(_) => "WebSocket receive error: "@,
            WStompError::WsSend(_) => "WebSocket send error: "@,
            WStompError::StompDecoding(_) => "STOMP decoding error: "@,
            WStompError::StompEncoding(_) => "STOMP encoding error: "@,
            WStompError::IncompleteStompFrame => "STOMP decoding warning: Dropped incomplete frame"@,
        }
    }

    /// A human-readable description, prefixed by the error's kind; for the
    /// incomplete-frame warning, the whole fixed text.
    pub fn message(&self) -> (r: String)
        ensures
            exists|d: Seq<char>| r@ == self.prefix_spec() + d,
            self matches WStompError::IncompleteStompFrame ==> r@ == self.prefix_spec(),
    {
        let ghost empty: Seq<char> = Seq::empty();
        match self {
            WStompError::WsReceive(e) => {
                let mut s = String::from_str("WebSocket receive error: ");
                let d = e.to_string();
                s.append(d.as_str());
                proof {
                    assert(s@ == self.prefix_spec() + d@);
                }
                s
            },
            WStompError::WsSend(e) => {
                let mut s = String::from_str("WebSocket send error: ");
                let d = e.to_string();
                s.append(d.as_str());
                proof {
                    assert(s@ == self.prefix_spec() + d@);
                }
                s
            },
            WStompError::StompDecoding(e) => {
                let mut s = String::from_str("STOMP decoding error: ");
                let d = e.to_string();
                s.append(d.as_str());
                proof {
                    assert(s@ == self.prefix_spec() + d@);
                }
                s
            },
            WStompError::StompEncoding(e) => {
                let mut s = String::from_str("STOMP encoding error: ");
                let d = e.to_string();
                s.append(d.as_str());
                proof {
                    assert(s@ == self.prefix_spec() + d@);
                }
                s
            },
            WStompError::IncompleteStompFrame => {
                let s = String::from_str("STOMP decoding warning: Dropped incomplete frame");
                proof {
                    assert(s@ =~= self.prefix_spec() + empty);
                }
                s
            },
        }
    }
}

} // verus!
