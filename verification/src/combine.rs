//! Combining two checksums into the checksum of the concatenation.
//!
//! Advancing the register by a zero bit is a linear map on 32-bit vectors
//! over GF(2), held here as a matrix of 32 rows: row `i` is the image of the
//! register in which only bit `i` is set.  Squaring the matrix doubles the
//! number of bits it advances by, so the map for `len2` zero bytes is
//! reached in a number of squarings logarithmic in `len2`.

use vstd::prelude::*;
use crate::model::{POLY, shift_bit, shift_bits, shift_bytes, crc32_combine};
use crate::linear::{
    lemma_shift_bits_add,
    lemma_shift_bits_xor,
    lemma_shift_bits_zero,
    lemma_shift_bytes_add,
    lemma_shift_bytes_as_bits,
};

verus! {

const GF2_DIM: usize = 32;

/// The register in which only bit `i` is set.
spec fn unit(i: int) -> u32 {
    1u32 << (i as u32)
}

/// `mat` is the matrix of "advance by `n` zero bits".
spec fn advances(mat: [u32; 32], n: nat) -> bool {
    forall|i: int| 0 <= i < 32 ==> #[trigger] mat[i] == shift_bits(unit(i), n)
}

/// The low `k` bits of `v`.
spec fn low_bits(v: u32, k: u32) -> u32 {
    v & !(u32::MAX << k)
}

/// How the low bits of `v` grow by one bit, and where they start and end.
proof fn lemma_low_bits(v: u32, k: u32)
    by (bit_vector)
    requires
        k < 32,
    ensures
        low_bits(v, 0) == 0,
        (v >> k) >> 1u32 == v >> ((k + 1) as u32),
        (v >> k) & 1 == 1 ==> low_bits(v, (k + 1) as u32) == low_bits(v, k) ^ (1u32 << k),
        (v >> k) & 1 != 1 ==> low_bits(v, (k + 1) as u32) == low_bits(v, k),
        v >> ((k + 1) as u32) == 0 ==> low_bits(v, (k + 1) as u32) == v,
        v >> 0u32 == v,
{
}

/// The product of a matrix and a vector: the exclusive-or of the rows that
/// the set bits of `vec` pick.
fn gf2_matrix_times(mat: &[u32; GF2_DIM], vec: u32, Ghost(n): Ghost<nat>) -> (sum: u32)
    requires
        advances(*mat, n),
    ensures
        sum == shift_bits(vec, n),
{
    let ghost whole = vec;
    let mut vec = vec;
    let mut sum: u32 = 0;
    let mut idx: usize = 0;
    proof {
        lemma_low_bits(whole, 0);
        lemma_shift_bits_zero(n);
    }
    while vec > 0
        invariant
            idx <= 32,
            vec == whole >> (idx as u32),
            sum == shift_bits(low_bits(whole, idx as u32), n),
            vec == 0 ==> low_bits(whole, idx as u32) == whole,
            advances(*mat, n),
        decreases 32 - idx,
    {
        proof {
            assert(whole >> 32u32 == 0) by (bit_vector);
            lemma_low_bits(whole, idx as u32);
            lemma_shift_bits_xor(low_bits(whole, idx as u32), unit(idx as int), n);
        }
        if vec & 1 == 1 {
            sum ^= mat[idx];
        }
        vec >>= 1;
        idx += 1;
    }
    sum
}

/// Squares a matrix: the square advances by twice as many bits.
fn gf2_matrix_square(square: &mut [u32; GF2_DIM], mat: &[u32; GF2_DIM], Ghost(n): Ghost<nat>)
    requires
        advances(*mat, n),
    ensures
        advances(*final(square), 2 * n),
{
    for i in 0..GF2_DIM
        invariant
            advances(*mat, n),
            forall|j: int| 0 <= j < i ==> #[trigger] square[j] == shift_bits(unit(j), 2 * n),
    {
        proof {
            lemma_shift_bits_add(unit(i as int), n, n);
        }
        square[i] = gf2_matrix_times(mat, mat[i], Ghost(n));
    }
}

/// One bit step on a register with a single bit set: the lowest bit turns
/// into the polynomial, any other moves down by one place.
proof fn lemma_unit_step(i: u32)
    by (bit_vector)
    requires
        1 <= i < 32,
    ensures
        shift_bit(1u32) == POLY,
        shift_bit(1u32 << i) == 1u32 << ((i - 1) as u32),
        (1u32 << ((i - 1) as u32)) << 1u32 == 1u32 << i,
        1u32 << 0u32 == 1,
{
}

/// The checksum of a concatenation from the checksums of its two parts:
/// `crc1` for the first, `crc2` for the second, which is `len2` bytes long.
/// With `len2 == 0` the result is `crc1`, whatever `crc2` is.
pub fn combine(crc1: u32, crc2: u32, len2: u64) -> (crc: u32)
    ensures
        crc == crc32_combine(crc1, crc2, len2 as nat),
        len2 == 0 ==> crc == crc1,
{
    let ghost total = len2 as nat;
    let ghost start = crc1;
    let mut crc1 = crc1;
    let mut len2 = len2;
    let mut even = [0u32; GF2_DIM];  // even-power-of-two zeros operator
    let mut odd = [0u32; GF2_DIM];  // odd-power-of-two zeros operator

    // degenerate case
    if len2 == 0 {
        return crc1;
    }

    // put operator for one zero bit in odd
    odd[0] = POLY;
    let mut row: u32 = 1;
    proof {
        lemma_unit_step(1);
    }
    for n in 1..GF2_DIM
        invariant
            odd[0] == POLY,
            row == unit(n - 1),
            forall|j: int| 1 <= j < n ==> #[trigger] odd[j] == unit(j - 1),
    {
        proof {
            lemma_unit_step(n as u32);
        }
        odd[n] = row;
        row <<= 1;
    }
    proof {
        assert forall|i: int| 0 <= i < 32 implies #[trigger] odd[i] == shift_bits(unit(i), 1) by {
            assert(shift_bits(unit(i), 1) == shift_bit(shift_bits(unit(i), 0)));
            if i == 0 {
                lemma_unit_step(1);
            } else {
                lemma_unit_step(i as u32);
            }
        }
    }

    // put operator for two zero bits in even
    gf2_matrix_square(&mut even, &odd, Ghost(1));

    // put operator for four zero bits in odd
    gf2_matrix_square(&mut odd, &even, Ghost(2));

    // apply len2 zeros to crc1 (first square will put the operator for one
    // zero byte, eight zero bits, in even)
    let ghost weight: nat = 1;  // bytes that the lowest bit of len2 stands for
    let ghost done: nat = 0;  // zero bytes applied to crc1 so far
    loop
        invariant_except_break
            len2 > 0,
            weight >= 1,
            advances(odd, 4 * weight),
            done + len2 * weight == total,
            crc1 == shift_bytes(start, done),
        ensures
            crc1 == shift_bytes(start, total),
        decreases len2,
    {
        // apply zeros operator for this bit of len2
        gf2_matrix_square(&mut even, &odd, Ghost(4 * weight));
        proof {
            lemma_take_bit(len2, weight);
            lemma_shift_bytes_as_bits(crc1, weight);
            lemma_shift_bytes_add(start, done, weight);
        }
        if len2 & 1 == 1 {
            crc1 = gf2_matrix_times(&even, crc1, Ghost(8 * weight));
            proof {
                done = done + weight;
            }
        }
        len2 >>= 1;
        proof {
            weight = 2 * weight;
        }

        // if no more bits set, then done
        if len2 == 0 {
            break;
        }

        // another iteration of the loop with odd and even swapped
        gf2_matrix_square(&mut odd, &even, Ghost(4 * weight));
        proof {
            lemma_take_bit(len2, weight);
            lemma_shift_bytes_as_bits(crc1, weight);
            lemma_shift_bytes_add(start, done, weight);
        }
        if len2 & 1 == 1 {
            crc1 = gf2_matrix_times(&odd, crc1, Ghost(8 * weight));
            proof {
                done = done + weight;
            }
        }
        len2 >>= 1;
        proof {
            weight = 2 * weight;
        }

        // if no more bits set, then done
        if len2 == 0 {
            break;
        }
    }

    // return combined crc
    crc1 ^= crc2;
    crc1
}

/// Taking the lowest bit off a length: what is left counts units of twice
/// the weight.
proof fn lemma_take_bit(len: u64, weight: nat)
    ensures
        len & 1 == 1 ==> len * weight == weight + (len >> 1) * (2 * weight),
        len & 1 != 1 ==> len * weight == (len >> 1) * (2 * weight),
        len >> 1 == 0 ==> (len >> 1) * (2 * weight) == 0,
        len > 0 ==> len >> 1 < len,
{
    let half = len >> 1;
    assert(len & 1 == 1 ==> len == 2 * (len >> 1) + 1) by (bit_vector);
    assert(len & 1 != 1 ==> len == 2 * (len >> 1)) by (bit_vector);
    assert(len > 0 ==> len >> 1 < len) by (bit_vector);
    assert((2 * half + 1) * weight == weight + half * (2 * weight)) by (nonlinear_arith);
    assert((2 * half) * weight == half * (2 * weight)) by (nonlinear_arith);
    assert(half == 0 ==> half * (2 * weight) == 0) by (nonlinear_arith);
}

} // verus!
