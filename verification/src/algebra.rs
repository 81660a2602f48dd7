//! What holds of the checksum as a function: how updates compose, and that
//! combining two checksums gives the checksum of the concatenation.  The
//! executable routines return exactly `crc32_update` and `crc32_combine`, so
//! each statement here is one about their results.

use vstd::prelude::*;
use crate::model::{absorb_all, shift_bytes, crc32_combine, crc32_update};
use crate::linear::{lemma_absorb_all_apart, lemma_absorb_all_concat, lemma_shift_bytes_xor};

verus! {

/// Appending nothing leaves a checksum as it is.
pub proof fn lemma_update_empty(prev: u32)
    ensures
        crc32_update(prev, Seq::<u8>::empty()) == prev,
{
    assert(!!prev == prev) by (bit_vector);
}

/// Appending `first` and then `second` is appending their concatenation.
pub proof fn lemma_update_split(prev: u32, first: Seq<u8>, second: Seq<u8>)
    ensures
        crc32_update(crc32_update(prev, first), second) == crc32_update(prev, first + second),
{
    let mid = absorb_all(!prev, first);
    assert(!!mid == mid) by (bit_vector);
    lemma_absorb_all_concat(!prev, first, second);
}

/// Combining with a part of length zero leaves the first checksum as it is,
/// whatever the second is.
pub proof fn lemma_combine_empty(crc_a: u32, crc_b: u32)
    ensures
        crc32_combine(crc_a, crc_b, 0) == crc_a,
{
}

/// Combining the checksum of `a` with the checksum of `b`, taken on its
/// own from 0, gives the checksum of `a` followed by `b`.  The first
/// checksum may itself continue an earlier one, `prev`.
pub proof fn lemma_combine_concat(prev: u32, a: Seq<u8>, b: Seq<u8>)
    ensures
        crc32_combine(crc32_update(prev, a), crc32_update(0, b), b.len()) == crc32_update(
            prev,
            a + b,
        ),
{
    if b.len() == 0 {
        assert(a + b =~= a);
    } else {
        let n = b.len();
        let ones = !0u32;
        let x = absorb_all(!prev, a);
        let y = absorb_all(0, b);
        let zx = shift_bytes(x, n);
        let zf = shift_bytes(ones, n);
        // the register after `a`, followed through `b`
        lemma_absorb_all_concat(!prev, a, b);
        lemma_absorb_all_apart(x, b);
        // the fresh register, followed through `b`
        lemma_absorb_all_apart(ones, b);
        // the checksum of `a`, advanced past `b`
        assert(!x == x ^ ones) by (bit_vector)
            requires
                ones == !0u32,
        ;
        lemma_shift_bytes_xor(x, ones, n);
        assert((zx ^ zf) ^ !(y ^ zf) == !(y ^ zx)) by (bit_vector);
    }
}

} // verus!
