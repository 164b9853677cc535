//! Verified core of a single-session pseudo-terminal (PTY) relay.
//!
//! The library holds the decision logic of a session manager that spawns one
//! interactive process on a PTY, relays its output to an event sink, and
//! routes input and resize commands to it. The operating-system work itself
//! (allocating the PTY, spawning the process, reading and writing the byte
//! streams) is performed by the embedding program; everything here is the
//! state and the rules: which handles are stored, which error is reported at
//! which stage, in which order output is relayed, and how raw bytes become
//! text.

pub mod decode;
pub mod dims;
pub mod errors;
pub mod relay;
pub mod resolve;
pub mod session;
pub mod watcher;
