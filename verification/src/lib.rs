//! Lifecycle supervision for a sharded chat-gateway bot.
//!
//! The hard part of such a bot is not the wire protocol (an external client
//! library owns that) but the coordination of independently-owned concurrent
//! pieces: a background task that drives the gateway shards, a one-shot
//! cancellation signal, an exclusive lock on the client handle, an optional
//! audio subsystem, and a shutdown sequence that must bring these down in a
//! fixed order.  This crate states that coordination logic as verified
//! decision functions on plain values; the surrounding process performs the
//! I/O these decisions call for and feeds the observed events back in.

pub mod cancel;
pub mod digits;
pub mod drive;
pub mod lock;
pub mod messaging;
pub mod shards;
pub mod supervisor;
