use crc32fast::baseline::update_slow;
use crc32fast::combine::combine;

fn filler(len: usize, seed: u64) -> Vec<u8> {
    let mut out = Vec::with_capacity(len);
    let mut x = seed;
    for _ in 0..len {
        x = (x * 1103515245 + 12345) & 0x7fff_ffff;
        out.push(((x >> 16) & 0xff) as u8);
    }
    out
}

#[test]
fn combine_hello_world() {
    let a = update_slow(0, b"hello");
    let b = update_slow(0, b" world");
    assert_eq!(a, 0x3610_A686);
    assert_eq!(b, 0x4A3B_42CB);
    assert_eq!(combine(a, b, 6), 0x0D4A_1185);
}

#[test]
fn combine_matches_concatenation() {
    let data = filler(400, 11);
    let whole = update_slow(0, &data);
    for cut in 0..=data.len() {
        let a = update_slow(0, &data[..cut]);
        let b = update_slow(0, &data[cut..]);
        assert_eq!(combine(a, b, (data.len() - cut) as u64), whole, "cut {}", cut);
    }
}

#[test]
fn combine_continues_a_carried_checksum() {
    let data = filler(200, 13);
    let whole = update_slow(0xDEAD_BEEF, &data);
    let a = update_slow(0xDEAD_BEEF, &data[..77]);
    let b = update_slow(0, &data[77..]);
    assert_eq!(combine(a, b, 123), whole);
}

#[test]
fn combine_zero_length_returns_first() {
    for c in [0u32, 1, 0x1234_5678, 0xFFFF_FFFF] {
        for x in [0u32, 1, 0x9ABC_DEF0, 0xFFFF_FFFF] {
            assert_eq!(combine(c, x, 0), c);
        }
    }
}

#[test]
fn combine_zero_checksums_nonzero_length() {
    // 0 is the checksum of the empty input; the second part is whatever
    // five bytes have the checksum 0 from 0.  Checked against two calls:
    // with `a` empty, the concatenation is the second part alone.
    assert_eq!(combine(0, 0, 5), 0);
    let b = [0x12u8, 0x34, 0x56, 0x78, 0x9A];
    let crc_b = update_slow(0, &b);
    let crc_a = update_slow(0, &[]);
    assert_eq!(crc_a, 0);
    assert_eq!(combine(crc_a, crc_b, 5), update_slow(update_slow(0, &[]), &b));
}

#[test]
fn combine_exact_values() {
    // one zero byte applied to the register 1 is the first non-zero entry
    // of the byte table
    assert_eq!(combine(1, 0, 1), 0x7707_3096);
    assert_eq!(combine(0x1234_5678, 0x9ABC_DEF0, 3), 0x0D0B_E96D);
    assert_eq!(combine(0x1234_5678, 0x9ABC_DEF0, (1u64 << 40) + 3), 0x59CC_D616);
}

#[test]
fn combine_largest_length() {
    assert_eq!(combine(0xFFFF_FFFF, 0, u64::MAX), 0xFFFF_FFFF);
    assert_eq!(combine(1, 0, 1u64 << 32), 0x7707_3096);
}

#[test]
fn combine_second_part_of_zero_bytes() {
    for len in [1usize, 2, 3, 8, 127, 128, 129, 1000] {
        let zeros = vec![0u8; len];
        let a = update_slow(0, b"prefix");
        let b = update_slow(0, &zeros);
        let mut joined = b"prefix".to_vec();
        joined.extend_from_slice(&zeros);
        assert_eq!(combine(a, b, len as u64), update_slow(0, &joined), "length {}", len);
    }
}
