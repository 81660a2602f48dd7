//! Why table lookups stand for register steps.  Within eight bit steps
//! only the low byte of the register meets the feedback, so a byte step is
//! one lookup beside the register moved down by a byte; and because the
//! register is linear, the looked-up term can be carried past the bytes that
//! follow, which turns sixteen dependent steps into sixteen independent
//! lookups.

use vstd::prelude::*;
use crate::model::{shift_byte, shift_bytes, absorb, absorb_all};
use crate::linear::{lemma_absorb_all_first, lemma_absorb_all_xor, lemma_shift_bytes_add};

verus! {

/// Only the low byte of the register meets the feedback within eight bit
/// steps; the upper three bytes just move down.
proof fn lemma_shift_byte_low(x: u32)
    by (bit_vector)
    ensures
        shift_byte(x) == (x >> 8) ^ shift_byte(x & 0xFF),
{
}

/// One byte step: the input byte meets the low byte of the register, and
/// what the two become after a zero byte is added to the register moved
/// down by a byte.
pub proof fn lemma_byte_step(r: u32, b: u8)
    ensures
        absorb(r, b) == shift_bytes(((r as u8) ^ b) as u32, 1) ^ (r >> 8),
{
    let wide = b as u32;
    let low = ((r as u8) ^ b) as u32;
    let high = r >> 8;
    let e = shift_byte(low);
    lemma_shift_byte_low(r ^ wide);
    assert((r ^ wide) >> 8 == r >> 8 && (r ^ wide) & 0xFF == ((r as u8) ^ b) as u32) by (bit_vector)
        requires
            wide == b as u32,
    ;
    assert(high ^ e == e ^ high) by (bit_vector);
    assert(shift_bytes(low, 1) == shift_byte(shift_bytes(low, 0)));
}

/// Taking the first byte off an input: the byte meets the low byte of the
/// register in a term that is advanced past the whole input at once, and
/// the rest of the input goes on from the register moved down by a byte.
pub proof fn lemma_peel(r: u32, s: Seq<u8>)
    requires
        s.len() >= 1,
    ensures
        absorb_all(r, s) == absorb_all(r >> 8, s.drop_first()) ^ shift_bytes(
            ((r as u8) ^ s[0]) as u32,
            s.len(),
        ),
{
    let rest = s.drop_first();
    let low = ((r as u8) ^ s[0]) as u32;
    let e = shift_bytes(low, 1);
    let high = r >> 8;
    lemma_absorb_all_first(r, s);
    lemma_byte_step(r, s[0]);
    assert(e ^ high == high ^ e) by (bit_vector);
    lemma_absorb_all_xor(high, e, rest);
    lemma_shift_bytes_add(low, 1, rest.len());
}

/// The same with an empty register, which stays empty.
proof fn lemma_peel_plain(s: Seq<u8>)
    requires
        s.len() >= 1,
    ensures
        absorb_all(0, s) == absorb_all(0, s.drop_first()) ^ shift_bytes(s[0] as u32, s.len()),
{
    let b = s[0];
    lemma_peel(0, s);
    assert(0u32 >> 8 == 0 && ((0u32 as u8) ^ b) == b) by (bit_vector);
}

/// The four lookups that involve the register, with the index written the
/// way the executable code computes it.
proof fn lemma_register_bytes(r: u32, b0: u8, b1: u8, b2: u8, b3: u8)
    by (bit_vector)
    ensures
        r >> 8 >> 8 >> 8 >> 8 == 0,
        (r as u8) ^ b0 == b0 ^ (r as u8),
        ((r >> 8) as u8) ^ b1 == b1 ^ ((r >> 0x08) as u8),
        ((r >> 8 >> 8) as u8) ^ b2 == b2 ^ ((r >> 0x10) as u8),
        ((r >> 8 >> 8 >> 8) as u8) ^ b3 == b3 ^ ((r >> 0x18) as u8),
{
}

/// Sixteen byte steps as sixteen independent terms, one per input byte,
/// each advanced by the number of bytes from its own to the end of the
/// block.  The four bytes of the register meet the first four bytes of the
/// block; by the fifth the register has moved out entirely.
pub proof fn lemma_fold_16(r: u32, s: Seq<u8>)
    requires
        s.len() == 16,
    ensures
        absorb_all(r, s) == shift_bytes(s[0xf] as u32, 0x1)
            ^ shift_bytes(s[0xe] as u32, 0x2)
            ^ shift_bytes(s[0xd] as u32, 0x3)
            ^ shift_bytes(s[0xc] as u32, 0x4)
            ^ shift_bytes(s[0xb] as u32, 0x5)
            ^ shift_bytes(s[0xa] as u32, 0x6)
            ^ shift_bytes(s[0x9] as u32, 0x7)
            ^ shift_bytes(s[0x8] as u32, 0x8)
            ^ shift_bytes(s[0x7] as u32, 0x9)
            ^ shift_bytes(s[0x6] as u32, 0xa)
            ^ shift_bytes(s[0x5] as u32, 0xb)
            ^ shift_bytes(s[0x4] as u32, 0xc)
            ^ shift_bytes((s[0x3] ^ ((r >> 0x18) as u8)) as u32, 0xd)
            ^ shift_bytes((s[0x2] ^ ((r >> 0x10) as u8)) as u32, 0xe)
            ^ shift_bytes((s[0x1] ^ ((r >> 0x08) as u8)) as u32, 0xf)
            ^ shift_bytes((s[0x0] ^ (r as u8)) as u32, 0x10),
{
    let r1 = r >> 8;
    let r2 = r1 >> 8;
    let r3 = r2 >> 8;
    let t = |j: int| s.subrange(j, 16);
    assert(t(0) =~= s);
    assert forall|j: int| 0 <= j < 16 implies (#[trigger] t(j)).drop_first() == t(j + 1) by {
        assert(t(j).drop_first() =~= t(j + 1));
    }
    lemma_register_bytes(r, s[0], s[1], s[2], s[3]);
    lemma_peel(r, t(0));
    lemma_peel(r1, t(1));
    lemma_peel(r2, t(2));
    lemma_peel(r3, t(3));
    lemma_peel_plain(t(4));
    lemma_peel_plain(t(5));
    lemma_peel_plain(t(6));
    lemma_peel_plain(t(7));
    lemma_peel_plain(t(8));
    lemma_peel_plain(t(9));
    lemma_peel_plain(t(10));
    lemma_peel_plain(t(11));
    lemma_peel_plain(t(12));
    lemma_peel_plain(t(13));
    lemma_peel_plain(t(14));
    lemma_peel_plain(t(15));
    assert(absorb_all(0, t(16)) == 0);
    let last = shift_bytes(s[15] as u32, 1);
    assert(0u32 ^ last == last) by (bit_vector);
}

} // verus!
