//! Hashed names: 32-bit identifiers derived from the BLAKE2b-256 digest of a
//! name, used as compact selectors in a contract interface.

pub mod digest;
pub mod hash;
pub mod literal;
