//! Core of a Minecraft proxy: the wire formats of the supported protocol
//! generations, the packet converters between them, and the rules by which a
//! client connection is taken from its first byte to the relay.
//!
//! Everything in this crate is verified. Sockets, timers and databases live in
//! the program around it, which hands plain values in and carries out what the
//! functions here decide.

pub mod connection;
pub mod connection_throttle;
pub mod converter;
pub mod flattening;
pub mod ident;
pub mod nbt;
pub mod number;
pub mod position;
pub mod slot;
pub mod text;
pub mod varint;
pub mod version;
pub mod wire;
pub mod writer;
