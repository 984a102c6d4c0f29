//! Bootstrap and session initialisation of a language server: what is
//! negotiated during the handshake, how a session ends, and the order in
//! which the steps of a session follow one another.

pub mod capabilities;
pub mod config;
pub mod handshake;
pub mod lifecycle;
pub mod notice;
pub mod outcome;
pub mod roots;
pub mod session;
pub mod startup;
pub mod trace;
pub mod trusted;
