//! Core of a room-based realtime chat feature: the room registry, the
//! per-room multicast topic, the per-connection session state machine, and
//! the validation and wire-encoding rules that feed them.
//!
//! Everything here is plain sequential logic with verified contracts. The
//! surrounding runtime (HTTP upgrade, websocket transport, database store,
//! task spawning) drives these types and performs the I/O they decide on.

pub mod codec;
pub mod decode;
pub mod error;
pub mod events;
pub mod registry;
pub mod session;
pub mod response;
pub mod room;
pub mod text;
pub mod todo;
pub mod topic;
pub mod user;
