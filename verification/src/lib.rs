//! Client-side engine for the Source RCON protocol: the wire packet codec
//! (framing, encoding, decoding) and the session logic that authenticates,
//! allocates packet ids, and reassembles multi-packet command responses.
//!
//! All transport I/O lives outside this crate; the functions here are pure
//! and fully specified, so a host only has to move bytes between a socket
//! and the codec.
pub mod client;
pub mod error;
pub mod packet;
pub mod wire;
