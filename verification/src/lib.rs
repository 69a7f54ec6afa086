//! Host-to-host authentication and typed payload transfer.
//!
//! A connecting peer proves that it holds the private key whose public half is
//! published in DNS for the hostname it claims. Only then does the connection
//! move from its handshake phase to its transfer phase, where typed payloads
//! flow through registered handlers.
//!
//! Nothing in this crate performs I/O. The handshake is a transition function
//! from a state and an event to the next state and a reaction; a driver reads
//! and writes the stream, asks DNS, and feeds the outcomes back.

pub mod ident;
pub mod packet;
pub mod wire;
pub mod codec;
pub mod protocol;
pub mod crypto;
pub mod handshake;
pub mod connection;
pub mod data;
pub mod laws;
