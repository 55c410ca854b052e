use tilestore::modtile::{read_tile, xy_to_mt};
use tilestore::{ModTileStore, TileError};

fn le(v: u32) -> [u8; 4] {
    v.to_le_bytes()
}

/// A container of four tiles for block (8, 8) at zoom 5, with payloads at
/// 100 (ten bytes), 110 (five bytes) and 120 (three bytes).
fn sample_container() -> Vec<u8> {
    let mut b = Vec::new();
    b.extend_from_slice(b"META");
    b.extend_from_slice(&le(4));
    b.extend_from_slice(&le(8));
    b.extend_from_slice(&le(8));
    b.extend_from_slice(&le(5));
    for (off, len) in [(100u32, 10u32), (110, 5), (0, 0), (120, 3)] {
        b.extend_from_slice(&le(off));
        b.extend_from_slice(&le(len));
    }
    b.resize(100, 0xee);
    b.extend((0u8..10).map(|i| i + 1));
    b.extend([0x21, 0x22, 0x23, 0x24, 0x25]);
    b.resize(120, 0xee);
    b.extend([0x31, 0x32, 0x33]);
    b
}

#[test]
fn decode_first_tile_of_block() {
    let b = sample_container();
    let r = read_tile(&b, 5, 8, 8);
    assert_eq!(r, Ok(Some(vec![1, 2, 3, 4, 5, 6, 7, 8, 9, 10])));
}

#[test]
fn decode_second_entry() {
    let b = sample_container();
    // local (0, 1): index 1
    assert_eq!(read_tile(&b, 5, 8, 9), Ok(Some(vec![0x21, 0x22, 0x23, 0x24, 0x25])));
}

#[test]
fn decode_entry_of_length_zero_is_absent() {
    let b = sample_container();
    // local (1, 0): index 2, whose length is 0
    assert_eq!(read_tile(&b, 5, 9, 8), Ok(None));
}

#[test]
fn decode_last_entry() {
    let b = sample_container();
    // local (1, 1): index 3
    assert_eq!(read_tile(&b, 5, 9, 9), Ok(Some(vec![0x31, 0x32, 0x33])));
}

#[test]
fn decode_other_block_is_absent() {
    let b = sample_container();
    assert_eq!(read_tile(&b, 5, 16, 8), Ok(None));
    assert_eq!(read_tile(&b, 5, 8, 0), Ok(None));
    assert_eq!(read_tile(&b, 6, 8, 8), Ok(None));
}

#[test]
fn decode_mismatch_needs_only_the_header() {
    let b = sample_container();
    assert_eq!(read_tile(&b[..20], 5, 16, 8), Ok(None));
}

#[test]
fn decode_index_past_count_is_absent() {
    let b = sample_container();
    // local (2, 2): index 6 > 4
    assert_eq!(read_tile(&b, 5, 10, 10), Ok(None));
}

#[test]
fn decode_unknown_count_fails() {
    let mut b = sample_container();
    b[4..8].copy_from_slice(&le(3));
    assert_eq!(read_tile(&b, 5, 8, 8), Err(TileError::BadCount(3)));
}

#[test]
fn decode_truncated_header_fails() {
    let b = sample_container();
    assert_eq!(read_tile(&b[..6], 5, 8, 8), Err(TileError::Truncated));
    assert_eq!(read_tile(&b[..16], 5, 8, 8), Err(TileError::Truncated));
}

#[test]
fn decode_truncated_index_fails() {
    let b = sample_container();
    assert_eq!(read_tile(&b[..30], 5, 9, 9), Err(TileError::Truncated));
}

#[test]
fn decode_truncated_payload_fails() {
    let b = sample_container();
    assert_eq!(read_tile(&b[..105], 5, 8, 8), Err(TileError::Truncated));
}

#[test]
fn decode_zoom_compared_on_low_byte() {
    let mut b = sample_container();
    b[16..20].copy_from_slice(&le(0x105));
    assert_eq!(read_tile(&b, 5, 8, 8), Ok(Some(vec![1, 2, 3, 4, 5, 6, 7, 8, 9, 10])));
}

#[test]
fn decode_full_metatile() {
    let mut b = Vec::new();
    b.extend_from_slice(b"META");
    b.extend_from_slice(&le(64));
    b.extend_from_slice(&le(16));
    b.extend_from_slice(&le(24));
    b.extend_from_slice(&le(7));
    let payload_at = 20 + 64 * 8;
    for i in 0..64u32 {
        b.extend_from_slice(&le(payload_at + i));
        b.extend_from_slice(&le(1));
    }
    b.extend((0..64u32).map(|i| i as u8));
    // local (3, 5): index 3 * 8 + 5
    assert_eq!(read_tile(&b, 7, 19, 29), Ok(Some(vec![29])));
}

#[test]
fn metatile_parts_of_block_eight_zero() {
    let parts = xy_to_mt(8, 0);
    assert_eq!(parts, ["0", "0", "0", "0", "128"].map(String::from));
    for p in parts.iter() {
        let n: u32 = p.parse().unwrap();
        assert!(n < 256);
    }
}

#[test]
fn metatile_parts_interleave_high_bits() {
    // x = 0x12345, y = 0x6789a: rounds from the low nibbles up
    let parts = xy_to_mt(0x12345, 0x6789a);
    assert_eq!(parts, ["22", "39", "56", "73", "90"].map(String::from));
}

#[test]
fn metatile_parts_largest_values() {
    let parts = xy_to_mt(u32::MAX, u32::MAX);
    assert_eq!(parts, ["255", "255", "255", "255", "255"].map(String::from));
}

#[test]
fn metatile_path_uses_block() {
    let s = ModTileStore::new("tiles".to_string());
    assert_eq!(s.pathish_for_tile_zxy(5, 9, 1), Some("tiles/5/0/0/0/0/128.meta".to_string()));
    assert_eq!(s.pathish_for_tile_zxy(5, 15, 7), s.pathish_for_tile_zxy(5, 8, 0));
}

#[test]
fn metatile_marker_path() {
    assert_eq!(ModTileStore::marker_path("r"), "r/0/0/0/0/0/0.meta");
}

#[test]
fn metatile_write_unsupported() {
    let s = ModTileStore::new("tiles".to_string());
    assert_eq!(s.set_tile_zxy(1, 0, 0, b"x"), Err(TileError::Unsupported));
}
