//! Ownership-safe model of a peer-discovery node: nodes with a deterministic
//! lifecycle, multi-frame messages whose ownership moves into the send path,
//! and events read from the engine as validated snapshots.
//!
//! Everything here is plain data and decisions. The native engine is driven
//! by the caller, which hands the library the bytes and status codes that the
//! engine produced and performs the releases and sends the library asks for.

mod error;
pub mod text;
pub mod message;
pub mod event;
pub mod node;

pub use error::Error;
pub use error::Result;
pub use event::{Event, RawEvent};
pub use message::Message;
pub use node::{NodeState, Outgoing, Zyre};
