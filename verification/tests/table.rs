use crc32fast::table::{lookup, CRC32_TABLE};

fn advance_byte(mut r: u32) -> u32 {
    for _ in 0..8 {
        r = if r & 1 == 1 { (r >> 1) ^ 0xEDB8_8320 } else { r >> 1 };
    }
    r
}

#[test]
fn table_known_entries() {
    assert_eq!(CRC32_TABLE[0][0], 0x0000_0000);
    assert_eq!(CRC32_TABLE[0][1], 0x7707_3096);
    assert_eq!(CRC32_TABLE[0][0x80], 0xEDB8_8320);
    assert_eq!(CRC32_TABLE[0][255], 0x2D02_EF8D);
    assert_eq!(CRC32_TABLE[1][1], 0x191B_3141);
    assert_eq!(CRC32_TABLE[15][1], 0xAE68_9191);
    assert_eq!(CRC32_TABLE[15][255], 0x0D71_39D7);
}

#[test]
fn table_0_is_the_byte_table() {
    for i in 0..256usize {
        assert_eq!(CRC32_TABLE[0][i], advance_byte(i as u32), "entry {}", i);
    }
}

#[test]
fn table_rows_advance_by_a_zero_byte() {
    for k in 1..16usize {
        for i in 0..256usize {
            assert_eq!(CRC32_TABLE[k][i], advance_byte(CRC32_TABLE[k - 1][i]), "table {} entry {}", k, i);
            assert_eq!(
                CRC32_TABLE[k][i],
                (CRC32_TABLE[k - 1][i] >> 8) ^ CRC32_TABLE[0][(CRC32_TABLE[k - 1][i] & 0xFF) as usize],
                "table {} entry {}",
                k,
                i
            );
        }
    }
}

#[test]
fn lookup_reads_the_table() {
    for k in 0..16usize {
        for i in 0..=255u8 {
            assert_eq!(lookup(k, i), CRC32_TABLE[k][i as usize]);
        }
    }
    assert_eq!(lookup(0, 1), 0x7707_3096);
    assert_eq!(lookup(1, 1), 0x191B_3141);
}
