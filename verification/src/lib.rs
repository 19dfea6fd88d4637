//! A client-side session multiplexer for STOMP messaging carried over a
//! WebSocket transport.
//!
//! The verified core is the session state machine: it reassembles fragmented
//! WebSocket messages, drives the STOMP codec, answers pings, and decides when
//! the session ends. The surrounding async transport plumbing lives outside
//! this crate's verified surface.

pub mod codec;
pub mod config;
pub mod connect;
pub mod error;
pub mod event;
pub mod ext;
pub mod reassembly;
pub mod session;
pub mod supervisor;

pub use config::{WStompConfig, WStompConfigOpts};
pub use connect::headers_for_token;
pub use error::{WStompConnectError, WStompError};
pub use event::WStompEvent;
