//! The shift register is linear over GF(2): advancing it commutes with
//! exclusive-or.  The lemmas here lift that fact from one bit to bytes and
//! to whole inputs.

use vstd::prelude::*;
use crate::model::{shift_bit, shift_bits, shift_byte, shift_bytes, absorb, absorb_all};

verus! {

/// One bit step commutes with exclusive-or.
pub proof fn lemma_shift_bit_xor(a: u32, b: u32)
    by (bit_vector)
    ensures
        shift_bit(a ^ b) == shift_bit(a) ^ shift_bit(b),
{
}

/// Any number of bit steps commutes with exclusive-or.
pub proof fn lemma_shift_bits_xor(a: u32, b: u32, n: nat)
    ensures
        shift_bits(a ^ b, n) == shift_bits(a, n) ^ shift_bits(b, n),
    decreases n,
{
    if n > 0 {
        lemma_shift_bits_xor(a, b, (n - 1) as nat);
        lemma_shift_bit_xor(shift_bits(a, (n - 1) as nat), shift_bits(b, (n - 1) as nat));
    }
}

/// An empty register stays empty.
pub proof fn lemma_shift_bits_zero(n: nat)
    ensures
        shift_bits(0, n) == 0,
    decreases n,
{
    if n > 0 {
        lemma_shift_bits_zero((n - 1) as nat);
        assert(shift_bit(0u32) == 0) by (bit_vector);
    }
}

/// Bit steps add up.
pub proof fn lemma_shift_bits_add(r: u32, m: nat, n: nat)
    ensures
        shift_bits(shift_bits(r, m), n) == shift_bits(r, m + n),
    decreases n,
{
    if n > 0 {
        lemma_shift_bits_add(r, m, (n - 1) as nat);
    }
}

/// A zero byte is eight zero bits.
pub proof fn lemma_shift_byte_is_eight_bits(r: u32)
    ensures
        shift_byte(r) == shift_bits(r, 8),
{
    reveal_with_fuel(shift_bits, 9);
}

/// A byte step commutes with exclusive-or.
pub proof fn lemma_shift_byte_xor(a: u32, b: u32)
    ensures
        shift_byte(a ^ b) == shift_byte(a) ^ shift_byte(b),
{
    lemma_shift_byte_is_eight_bits(a);
    lemma_shift_byte_is_eight_bits(b);
    lemma_shift_byte_is_eight_bits(a ^ b);
    lemma_shift_bits_xor(a, b, 8);
}

/// Any number of byte steps commutes with exclusive-or.
pub proof fn lemma_shift_bytes_xor(a: u32, b: u32, n: nat)
    ensures
        shift_bytes(a ^ b, n) == shift_bytes(a, n) ^ shift_bytes(b, n),
    decreases n,
{
    if n > 0 {
        lemma_shift_bytes_xor(a, b, (n - 1) as nat);
        lemma_shift_byte_xor(shift_bytes(a, (n - 1) as nat), shift_bytes(b, (n - 1) as nat));
    }
}

/// `n` zero bytes are `8 * n` zero bits.
pub proof fn lemma_shift_bytes_as_bits(r: u32, n: nat)
    ensures
        shift_bytes(r, n) == shift_bits(r, 8 * n),
    decreases n,
{
    if n > 0 {
        lemma_shift_bytes_as_bits(r, (n - 1) as nat);
        lemma_shift_byte_is_eight_bits(shift_bits(r, (8 * (n - 1)) as nat));
        lemma_shift_bits_add(r, (8 * (n - 1)) as nat, 8);
    }
}

/// Byte steps add up.
pub proof fn lemma_shift_bytes_add(r: u32, m: nat, n: nat)
    ensures
        shift_bytes(shift_bytes(r, m), n) == shift_bytes(r, m + n),
    decreases n,
{
    if n > 0 {
        lemma_shift_bytes_add(r, m, (n - 1) as nat);
    }
}

/// Consuming `a` and then `b` is consuming their concatenation.
pub proof fn lemma_absorb_all_concat(r: u32, a: Seq<u8>, b: Seq<u8>)
    ensures
        absorb_all(r, a + b) == absorb_all(absorb_all(r, a), b),
    decreases b.len(),
{
    if b.len() == 0 {
        assert(a + b =~= a);
    } else {
        lemma_absorb_all_concat(r, a, b.drop_last());
        assert((a + b).drop_last() =~= a + b.drop_last());
        assert((a + b).last() == b.last());
    }
}

/// The first byte can be taken off the front of a non-empty input.
pub proof fn lemma_absorb_all_first(r: u32, s: Seq<u8>)
    requires
        s.len() > 0,
    ensures
        absorb_all(r, s) == absorb_all(absorb(r, s[0]), s.drop_first()),
{
    let head = seq![s[0]];
    assert(head + s.drop_first() =~= s);
    lemma_absorb_all_concat(r, head, s.drop_first());
    assert(head.drop_last() =~= Seq::<u8>::empty());
    assert(absorb_all(r, head) == absorb(absorb_all(r, head.drop_last()), head.last()));
}

/// A term added to the starting register travels through the input on its
/// own: it comes out advanced by as many zero bytes as the input is long.
pub proof fn lemma_absorb_all_xor(r: u32, t: u32, s: Seq<u8>)
    ensures
        absorb_all(r ^ t, s) == absorb_all(r, s) ^ shift_bytes(t, s.len()),
    decreases s.len(),
{
    if s.len() > 0 {
        let init = s.drop_last();
        let x = absorb_all(r, init);
        let y = shift_bytes(t, init.len());
        let b = s.last() as u32;
        lemma_absorb_all_xor(r, t, init);
        assert((x ^ y) ^ b == (x ^ b) ^ y) by (bit_vector);
        lemma_shift_byte_xor(x ^ b, y);
    }
}

/// The register and the input contribute separately: the input as if the
/// register had been empty, the register as if the input had been zeros.
pub proof fn lemma_absorb_all_apart(r: u32, s: Seq<u8>)
    ensures
        absorb_all(r, s) == absorb_all(0, s) ^ shift_bytes(r, s.len()),
{
    lemma_absorb_all_xor(0, r, s);
    assert(0u32 ^ r == r) by (bit_vector);
}

} // verus!
