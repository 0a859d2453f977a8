//! Server-side protocol boundary of a blockchain node: the error taxonomy
//! shared by all peer-facing services, the handshake outcome model, and the
//! capability contracts a node implementation satisfies.
pub mod error;
pub mod handshake;
pub mod p2p;
pub mod server;
