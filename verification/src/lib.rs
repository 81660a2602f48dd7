//! CRC-32 (reflected polynomial `0xEDB88320`) over byte buffers, with
//! incremental updates and the combination of two checksums into the
//! checksum of the concatenation, verified against a bit-serial model of
//! the shift register.
//!
//! - [`model`]: the checksum as mathematics, one bit at a time.
//! - [`linear`]: the register is linear over GF(2).
//! - [`table`]: the sixteen lookup tables, and the proof of what they hold.
//! - [`folding`]: why table lookups stand for register steps.
//! - [`baseline`]: the byte-wise and the sixteen-byte updates, and the
//!   incremental state.
//! - [`combine`]: the checksum of a concatenation from the checksums of
//!   its parts.
//! - [`algebra`]: how updates compose, and that combination is correct.

pub mod model;
pub mod linear;
pub mod table;
pub mod folding;
pub mod baseline;
pub mod combine;
pub mod algebra;
