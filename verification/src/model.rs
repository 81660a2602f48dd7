//! The mathematical model of the checksum: a 32-bit shift register with
//! feedback, advanced one bit at a time.  Every executable routine of the
//! crate is specified against the functions of this module, none of which
//! mentions a lookup table.

use vstd::prelude::*;

verus! {

/// The CRC-32 generator polynomial, bit-reversed.
pub const POLY: u32 = 0xEDB8_8320;

/// The register after one zero bit has been clocked in.
pub open spec fn shift_bit(r: u32) -> u32 {
    if r & 1 == 1 {
        (r >> 1) ^ POLY
    } else {
        r >> 1
    }
}

/// The register after `n` zero bits.
pub open spec fn shift_bits(r: u32, n: nat) -> u32
    decreases n,
{
    if n == 0 {
        r
    } else {
        shift_bit(shift_bits(r, (n - 1) as nat))
    }
}

/// The register after one zero byte: eight single-bit steps.
pub open spec fn shift_byte(r: u32) -> u32 {
    shift_bit(shift_bit(shift_bit(shift_bit(shift_bit(shift_bit(shift_bit(shift_bit(r))))))))
}

/// The register after `n` zero bytes.
pub open spec fn shift_bytes(r: u32, n: nat) -> u32
    decreases n,
{
    if n == 0 {
        r
    } else {
        shift_byte(shift_bytes(r, (n - 1) as nat))
    }
}

/// The register after one input byte: the byte is added into the low end of
/// the register, which then advances by eight bits.
pub open spec fn absorb(r: u32, b: u8) -> u32 {
    shift_byte(r ^ (b as u32))
}

/// The register after the bytes of `s`, consumed in order.
pub open spec fn absorb_all(r: u32, s: Seq<u8>) -> u32
    decreases s.len(),
{
    if s.len() == 0 {
        r
    } else {
        absorb(absorb_all(r, s.drop_last()), s.last())
    }
}

/// The checksum that follows `prev` once `bytes` have been appended.  A
/// checksum at rest is the complement of the register, so the register is
/// restored on entry and complemented again on exit.
pub open spec fn crc32_update(prev: u32, bytes: Seq<u8>) -> u32 {
    !absorb_all(!prev, bytes)
}

/// The checksum of a concatenation, from the checksum `crc_a` of its first
/// part, the checksum `crc_b` of its second part and the length `len_b` of
/// the second part in bytes.  An empty second part leaves `crc_a` as it is.
pub open spec fn crc32_combine(crc_a: u32, crc_b: u32, len_b: nat) -> u32 {
    if len_b == 0 {
        crc_a
    } else {
        shift_bytes(crc_a, len_b) ^ crc_b
    }
}

} // verus!
