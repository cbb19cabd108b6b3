//! The life of a client's connection, from its first byte to the relay: what is read from
//! the bytes that arrive, what is sent in answer, and what happens next.

pub mod attempt;
pub mod backend;
pub mod backend_login;
pub mod cipher;
pub mod config_phase;
pub mod error;
pub mod frames;
pub mod front;
pub mod hello;
pub mod identity;
pub mod laws;
pub mod legacy;
pub mod login;
pub mod opening;
pub mod session;
pub mod status;
pub mod stream;
