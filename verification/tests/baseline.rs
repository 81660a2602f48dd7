use crc32fast::baseline::{update_fast_16, update_slow, State};

/// Deterministic filler bytes.
fn pattern(len: usize, seed: u64) -> Vec<u8> {
    let mut out = Vec::with_capacity(len);
    let mut x = seed;
    for _ in 0..len {
        x = (x * 1103515245 + 12345) & 0x7fff_ffff;
        out.push(((x >> 16) & 0xff) as u8);
    }
    out
}

/// The register advanced bit by bit, with no table.
fn bitwise(prev: u32, buf: &[u8]) -> u32 {
    let mut crc = !prev;
    for &byte in buf {
        crc ^= byte as u32;
        for _ in 0..8 {
            crc = if crc & 1 == 1 { (crc >> 1) ^ 0xEDB8_8320 } else { crc >> 1 };
        }
    }
    !crc
}

#[test]
fn slow() {
    assert_eq!(update_slow(0, b""), 0);

    // test vectors from the iPXE project (input and output are bitwise negated)
    assert_eq!(update_slow(!0x12345678, b""), !0x12345678);
    assert_eq!(update_slow(!0xffffffff, b"hello world"), !0xf2b5ee7a);
    assert_eq!(update_slow(!0xffffffff, b"hello"), !0xc9ef5979);
    assert_eq!(update_slow(!0xc9ef5979, b" world"), !0xf2b5ee7a);

    // Some vectors found on Rosetta code
    assert_eq!(update_slow(0, b"\x00\x00\x00\x00\x00\x00\x00\x00\x00\x00\x00\x00\x00\x00\x00\x00\x00\x00\x00\x00\x00\x00\x00\x00\x00\x00\x00\x00\x00\x00\x00\x00"), 0x190A55AD);
    assert_eq!(update_slow(0, b"\xFF\xFF\xFF\xFF\xFF\xFF\xFF\xFF\xFF\xFF\xFF\xFF\xFF\xFF\xFF\xFF\xFF\xFF\xFF\xFF\xFF\xFF\xFF\xFF\xFF\xFF\xFF\xFF\xFF\xFF\xFF\xFF"), 0xFF6CAB0B);
    assert_eq!(update_slow(0, b"\x00\x01\x02\x03\x04\x05\x06\x07\x08\x09\x0A\x0B\x0C\x0D\x0E\x0F\x10\x11\x12\x13\x14\x15\x16\x17\x18\x19\x1A\x1B\x1C\x1D\x1E\x1F"), 0x91267E8A);
}

#[test]
fn slow_standard_check_value() {
    assert_eq!(update_slow(0, b"123456789"), 0xCBF4_3926);
    assert_eq!(update_slow(0, b"hello world"), 0x0D4A_1185);
}

#[test]
fn slow_matches_bit_by_bit_register() {
    for len in [0usize, 1, 2, 7, 64, 300] {
        let data = pattern(len, 7);
        for prev in [0u32, 1, 0xDEAD_BEEF, 0xFFFF_FFFF] {
            assert_eq!(update_slow(prev, &data), bitwise(prev, &data));
        }
    }
}

#[test]
fn slow_empty_input_returns_prev() {
    for prev in [0u32, 1, 0x1234_5678, 0x8000_0000, 0xFFFF_FFFF] {
        assert_eq!(update_slow(prev, &[]), prev);
    }
}

#[test]
fn fast_16_empty_input_returns_prev() {
    for prev in [0u32, 1, 0x1234_5678, 0x8000_0000, 0xFFFF_FFFF] {
        assert_eq!(update_fast_16(prev, &[]), prev);
    }
}

#[test]
fn fast_16_known_vectors() {
    assert_eq!(update_fast_16(0, b""), 0);
    assert_eq!(update_fast_16(!0xffffffff, b"hello world"), !0xf2b5ee7a);
    assert_eq!(update_fast_16(!0xffffffff, b"hello"), !0xc9ef5979);
    assert_eq!(update_fast_16(!0xc9ef5979, b" world"), !0xf2b5ee7a);
    assert_eq!(update_fast_16(0, &[0u8; 32]), 0x190A55AD);
    assert_eq!(update_fast_16(0, &[0xFFu8; 32]), 0xFF6CAB0B);
    assert_eq!(update_fast_16(0, b"123456789"), 0xCBF4_3926);
    assert_eq!(update_fast_16(0, &[0u8; 128]), 0xC2A8_FA9D);
}

#[test]
fn fast_16_block_lengths() {
    // (length, checksum from 0, checksum from 0xDEADBEEF)
    let cases: [(usize, u32, u32); 14] = [
        (0, 0x0000_0000, 0xDEAD_BEEF),
        (1, 0xA005_8808, 0x906E_DA5F),
        (15, 0x3139_8A7B, 0x6B83_EA06),
        (16, 0x6638_6830, 0x48D6_DFD1),
        (17, 0x83BA_D7DF, 0x5499_EB86),
        (127, 0x68E8_F968, 0xDD7E_8965),
        (128, 0x640C_2A49, 0x1A08_C084),
        (129, 0x89B8_4DBA, 0x6C13_F75D),
        (255, 0xF5C3_38AC, 0x4121_0669),
        (256, 0x8144_BF85, 0x6AFE_6B84),
        (257, 0x7952_966B, 0x0EBE_1C29),
        (1000, 0x1F52_FD1C, 0x68ED_7481),
        (4096, 0x4641_A512, 0x1466_C74F),
        (4099, 0x2033_1277, 0xB696_1388),
    ];
    for (len, from_zero, from_prev) in cases {
        let data = pattern(len, 1);
        assert_eq!(update_fast_16(0, &data), from_zero, "length {}", len);
        assert_eq!(update_fast_16(0xDEAD_BEEF, &data), from_prev, "length {}", len);
        assert_eq!(update_slow(0, &data), from_zero, "length {}", len);
        assert_eq!(update_slow(0xDEAD_BEEF, &data), from_prev, "length {}", len);
    }
}

#[test]
fn fast_16_is_the_same_as_slow() {
    let data = pattern(700, 42);
    for len in 0..=data.len() {
        for crc in [0u32, 0x0000_00FF, 0x1357_9BDF, 0xFFFF_FFFF] {
            let bytes = &data[..len];
            assert_eq!(update_fast_16(crc, bytes), update_slow(crc, bytes), "length {}", len);
        }
    }
}

#[test]
fn fast_16_sees_every_byte_of_a_block() {
    let base = vec![0u8; 128];
    let reference = update_fast_16(0, &base);
    for i in 0..128 {
        let mut changed = base.clone();
        changed[i] = 1;
        let crc = update_fast_16(0, &changed);
        assert_ne!(crc, reference, "byte {}", i);
        assert_eq!(crc, update_slow(0, &changed), "byte {}", i);
    }
}

#[test]
fn slow_split_anywhere_matches_one_shot() {
    let data = pattern(300, 3);
    let whole = update_slow(0x0BAD_F00D, &data);
    for cut in 0..=data.len() {
        let first = update_slow(0x0BAD_F00D, &data[..cut]);
        assert_eq!(update_slow(first, &data[cut..]), whole, "cut {}", cut);
    }
}

#[test]
fn fast_16_split_anywhere_matches_one_shot() {
    let data = pattern(520, 5);
    let whole = update_fast_16(0, &data);
    for cut in 0..=data.len() {
        let first = update_fast_16(0, &data[..cut]);
        assert_eq!(update_fast_16(first, &data[cut..]), whole, "cut {}", cut);
    }
}

#[test]
fn state_new_and_finalize() {
    assert_eq!(State::new(0).finalize(), 0);
    assert_eq!(State::new(0x1234_5678).finalize(), 0x1234_5678);
}

#[test]
fn state_update_matches_one_shot() {
    let mut state = State::new(0);
    state.update(b"hello");
    assert_eq!(state.clone().finalize(), 0x3610_A686);
    state.update(b" world");
    assert_eq!(state.finalize(), 0x0D4A_1185);

    let data = pattern(1000, 1);
    let mut chunked = State::new(0);
    for chunk in data.chunks(129) {
        chunked.update(chunk);
    }
    assert_eq!(chunked.finalize(), 0x1F52_FD1C);
}

#[test]
fn state_update_empty_keeps_value() {
    let mut state = State::new(0xCAFE_F00D);
    state.update(&[]);
    assert_eq!(state.finalize(), 0xCAFE_F00D);
}

#[test]
fn state_continues_carried_checksum() {
    let mut state = State::new(!0xc9ef5979);
    state.update(b" world");
    assert_eq!(state.finalize(), !0xf2b5ee7a);
}

#[test]
fn state_reset_returns_to_zero() {
    let mut state = State::new(0);
    state.update(b"some data");
    assert_ne!(state.clone().finalize(), 0);
    state.reset();
    assert_eq!(state.clone().finalize(), 0);
    state.update(b"123456789");
    assert_eq!(state.finalize(), 0xCBF4_3926);
}

#[test]
fn state_clone_is_independent() {
    let mut state = State::new(0);
    state.update(b"hello");
    let copy = state.clone();
    state.update(b" world");
    assert_eq!(copy.finalize(), 0x3610_A686);
    assert_eq!(state.finalize(), 0x0D4A_1185);
}

#[test]
fn state_combine_appends_other_checksum() {
    let mut state = State::new(0);
    state.update(b"hello");
    let other = update_slow(0, b" world");
    state.combine(other, 6);
    assert_eq!(state.finalize(), 0x0D4A_1185);
}

#[test]
fn state_combine_with_zero_length_keeps_value() {
    let mut state = State::new(0x3610_A686);
    state.combine(0x4A3B_42CB, 0);
    assert_eq!(state.finalize(), 0x3610_A686);
}
