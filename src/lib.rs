//! A SOCKS5 proxy: the wire codec, the handshake state machine and the
//! per-connection decisions, with their contracts.
pub mod cli;
pub mod client;
pub mod decimal;
pub mod handshake;
pub mod lemmas;
pub mod server;
