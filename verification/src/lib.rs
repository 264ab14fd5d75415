//! Codec for a 16-byte serial frame: a fixed header (destination, source,
//! version, hop count, opcode), an 8-byte payload, and a one's-complement
//! checksum over the 13 header-and-payload bytes.

pub mod checksum;
pub mod command;
pub mod frame;
