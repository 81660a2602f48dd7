//! The portable implementation: a byte-at-a-time update, a sixteen-bytes-
//! at-a-time update built on it, and the incremental state that threads a
//! checksum through successive buffers.

use vstd::prelude::*;
use crate::algebra::lemma_update_empty;
use crate::combine;
use crate::model::{absorb_all, crc32_combine, crc32_update};
use crate::linear::lemma_absorb_all_concat;
use crate::folding::{lemma_byte_step, lemma_fold_16};
use crate::table::lookup;

verus! {

/// A checksum in progress: the checksum of everything appended so far.
pub struct State {
    state: u32,
}

impl View for State {
    type V = u32;

    /// The checksum that the state holds.
    closed spec fn view(&self) -> u32 {
        self.state
    }
}

impl Clone for State {
    fn clone(&self) -> (copy: Self)
        ensures
            copy@ == self@,
    {
        State { state: self.state }
    }
}

impl State {
    /// A state that holds `state`: 0 for a fresh checksum, or the checksum
    /// of earlier data that is to be continued.
    pub fn new(state: u32) -> (new: Self)
        ensures
            new@ == state,
    {
        State { state }
    }

    /// Appends `buf` to the data that the checksum covers.
    pub fn update(&mut self, buf: &[u8])
        ensures
            final(self)@ == crc32_update(old(self)@, buf@),
            buf@.len() == 0 ==> final(self)@ == old(self)@,
    {
        self.state = update_fast_16(self.state, buf);
    }

    /// The checksum of everything appended so far.
    pub fn finalize(self) -> (crc: u32)
        ensures
            crc == self@,
    {
        self.state
    }

    /// Back to the checksum of no data.
    pub fn reset(&mut self)
        ensures
            final(self)@ == 0,
    {
        self.state = 0;
    }

    /// Extends the data that the checksum covers by `amount` further bytes
    /// whose own checksum is `other`.
    pub fn combine(&mut self, other: u32, amount: u64)
        ensures
            final(self)@ == crc32_combine(old(self)@, other, amount as nat),
            amount == 0 ==> final(self)@ == old(self)@,
    {
        self.state = combine::combine(self.state, other, amount);
    }
}

const UNROLL: usize = 8;

const BYTES_AT_ONCE: usize = 16 * UNROLL;

/// Appends `buf` to the checksum `prev`, sixteen bytes per step while at
/// least 128 bytes remain, and hands what is left to [`update_slow`].  On
/// every input the result is the one that `update_slow` returns.
pub fn update_fast_16(prev: u32, buf: &[u8]) -> (crc: u32)
    ensures
        crc == crc32_update(prev, buf@),
        buf@.len() == 0 ==> crc == prev,
{
    let mut buf = buf;
    let ghost whole = buf@;
    let mut crc = !prev;

    while buf.len() >= BYTES_AT_ONCE
        invariant
            absorb_all(crc, buf@) == absorb_all(!prev, whole),
        decreases buf@.len(),
    {
        let ghost before = buf@.len();
        for i in 0..UNROLL
            invariant
                absorb_all(crc, buf@) == absorb_all(!prev, whole),
                before >= BYTES_AT_ONCE,
                buf@.len() == before - 16 * i,
        {
            proof {
                let block = buf@.subrange(0, 16);
                let rest = buf@.subrange(16, buf@.len() as int);
                assert(block + rest =~= buf@);
                lemma_absorb_all_concat(crc, block, rest);
                lemma_fold_16(crc, block);
            }
            crc = lookup(0x0, buf[0xf])
                ^ lookup(0x1, buf[0xe])
                ^ lookup(0x2, buf[0xd])
                ^ lookup(0x3, buf[0xc])
                ^ lookup(0x4, buf[0xb])
                ^ lookup(0x5, buf[0xa])
                ^ lookup(0x6, buf[0x9])
                ^ lookup(0x7, buf[0x8])
                ^ lookup(0x8, buf[0x7])
                ^ lookup(0x9, buf[0x6])
                ^ lookup(0xa, buf[0x5])
                ^ lookup(0xb, buf[0x4])
                ^ lookup(0xc, buf[0x3] ^ #[verifier::truncate] ((crc >> 0x18) as u8))
                ^ lookup(0xd, buf[0x2] ^ #[verifier::truncate] ((crc >> 0x10) as u8))
                ^ lookup(0xe, buf[0x1] ^ #[verifier::truncate] ((crc >> 0x08) as u8))
                ^ lookup(0xf, buf[0x0] ^ #[verifier::truncate] (crc as u8));
            buf = &buf[16..buf.len()];
        }
    }

    proof {
        assert(!!crc == crc) by (bit_vector);
        lemma_update_empty(prev);
        assert(whole.len() == 0 ==> whole =~= Seq::<u8>::empty());
    }
    update_slow(!crc, buf)
}

/// Appends `buf` to the checksum `prev`, one byte and one table lookup at
/// a time.  An empty buffer returns `prev`.
pub fn update_slow(prev: u32, buf: &[u8]) -> (crc: u32)
    ensures
        crc == crc32_update(prev, buf@),
        buf@.len() == 0 ==> crc == prev,
{
    let mut crc = !prev;

    for i in 0..buf.len()
        invariant
            crc == absorb_all(!prev, buf@.take(i as int)),
    {
        let byte = buf[i];
        proof {
            lemma_byte_step(crc, byte);
            assert(buf@.take(i + 1).drop_last() =~= buf@.take(i as int));
        }
        crc = lookup(0, (#[verifier::truncate] (crc as u8)) ^ byte) ^ (crc >> 8);
    }

    proof {
        assert(buf@.take(buf@.len() as int) =~= buf@);
        lemma_update_empty(prev);
        assert(buf@.len() == 0 ==> buf@ =~= Seq::<u8>::empty());
    }
    !crc
}

/// The two updates agree: a result of `update_fast_16` and a result of
/// `update_slow` for the same checksum and the same buffer are equal.
pub proof fn lemma_fast_16_is_slow(prev: u32, buf: &[u8], fast: u32, slow: u32)
    requires
        call_ensures(update_fast_16, (prev, buf), fast),
        call_ensures(update_slow, (prev, buf), slow),
    ensures
        fast == slow,
{
}

} // verus!
