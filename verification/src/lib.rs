//! Server side of the PostgreSQL v3 frontend/backend wire protocol.
//!
//! The crate holds the protocol engine: big-endian framing, the start-up
//! handshake, the decoder of frontend messages, the encoder of backend
//! messages, the codec of typed values and the bookkeeping of connection
//! identifiers. Every function is verified against a mathematical model of
//! the bytes it reads or writes; transport, TLS and scheduling are left to
//! the caller.

use vstd::prelude::*;

pub mod connection;
pub mod cursor;
pub mod errors;
pub mod format;
pub mod frontend;
pub mod hand_shake;
pub mod message_decoder;
pub mod messages;
pub mod request_codes;
pub mod text;
pub mod types;
pub mod wire;

pub use connection::{ConnSupervisor, Encryption, ProtocolConfiguration};
pub use errors::ProtocolError;
pub use format::{PgFormat, UnrecognizedFormat};
pub use frontend::CommandMessage;
pub use message_decoder::MessageDecoder;
pub use messages::{BackendMessage, ColumnMetadata};
pub use types::{Oid, PgType, Value};

verus! {

/// Identifies a connection among those that are live in one server.
pub type ConnId = i32;

/// The secret that a client must show to cancel what runs on a connection.
pub type ConnSecretKey = i32;

/// The parameters that a client sets at start-up, in the order it sent them.
pub type ClientParams = Vec<(String, String)>;

} // verus!
