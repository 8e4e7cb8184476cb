//! File transfer between a client and a server over a byte stream: frames
//! with a length prefix, a JSON header for each operation, bodies of a
//! declared size, and SHA-256 to tell whether what arrived is what was sent.
//!
//! The library holds the protocol and none of the I/O. A `Session` is told
//! what happened on the socket and on the disk and answers what to do next;
//! the caller owns the socket and the files.

pub mod address;
pub mod cli;
pub mod client;
pub mod error;
pub mod frame;
pub mod hashing;
pub mod header;
pub mod json;
pub mod listing;
pub mod path;
pub mod protocol;
pub mod server;
pub mod session;
pub mod stream;
pub mod text;

pub use error::VeriflowError;
pub use header::{Command, FileHeader};
pub use protocol::ProtocolConnection;
pub use session::Session;
