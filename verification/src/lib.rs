//! A verified SOCKS5 protocol core: wire codec, handshake negotiation,
//! CONNECT resolution, relay half-close bookkeeping, and the client side
//! of the handshake. All I/O stays outside; every function here is a pure
//! computation over bytes and small state values.

pub mod types;
pub mod codec;
pub mod negotiate;
pub mod session;
pub mod relay;
pub mod client;
pub mod laws;
