use wad_archive::text::{ascii_string, nul_position, same_text, trimmed_len};
use wad_archive::utils::{u8ref_to_i16, u8ref_to_u16, u8ref_to_u32, u8x2_to_i16, u8x4_to_u32};

#[test]
fn four_bytes_make_a_u32() {
    assert_eq!(u8x4_to_u32([0x78, 0x56, 0x34, 0x12]), 0x12345678);
    assert_eq!(u8x4_to_u32([0, 0, 0, 0]), 0);
    assert_eq!(u8x4_to_u32([0xff, 0xff, 0xff, 0xff]), u32::MAX);
    assert_eq!(u8x4_to_u32([0x98, 0x00, 0x00, 0x00]), 152);
    assert_eq!(u8x4_to_u32([0, 0, 0, 0x80]), 0x8000_0000);
}

#[test]
fn two_bytes_make_an_i16() {
    assert_eq!(u8x2_to_i16([0x34, 0x12]), 0x1234);
    assert_eq!(u8x2_to_i16([0xff, 0xff]), -1);
    assert_eq!(u8x2_to_i16([0x00, 0x80]), i16::MIN);
    assert_eq!(u8x2_to_i16([0xff, 0x7f]), i16::MAX);
    assert_eq!(u8x2_to_i16([0x18, 0xfc]), -1000);
}

#[test]
fn slices_are_read_like_arrays() {
    assert_eq!(u8ref_to_u32(&[0x78, 0x56, 0x34, 0x12]), 0x12345678);
    assert_eq!(u8ref_to_i16(&[0xfe, 0xff]), -2);
    assert_eq!(u8ref_to_u16(&[0xfe, 0xff]), 0xfffe);
    assert_eq!(u8ref_to_u16(&[0x3b, 0x01]), 315);
}

#[test]
fn every_pair_of_bytes_reads_as_std_reads_it() {
    for b0 in 0..=255u8 {
        for b1 in 0..=255u8 {
            assert_eq!(u8x2_to_i16([b0, b1]), i16::from_le_bytes([b0, b1]));
            assert_eq!(u8ref_to_u16(&[b0, b1]), u16::from_le_bytes([b0, b1]));
        }
    }
}

#[test]
fn trimming_stops_at_the_last_byte_that_is_not_nul() {
    assert_eq!(trimmed_len(b"E1M1\0\0\0\0"), 4);
    assert_eq!(trimmed_len(b"AB\0CD\0\0\0"), 5);
    assert_eq!(trimmed_len(b"\0\0\0\0"), 0);
    assert_eq!(trimmed_len(b""), 0);
    assert_eq!(trimmed_len(b"BLOCKMAP"), 8);
    assert_eq!(trimmed_len(b"\0A"), 2);
}

#[test]
fn first_nul_ends_the_text() {
    assert_eq!(nul_position(b"PALETTE\0junk\0"), 7);
    assert_eq!(nul_position(b"\0abc"), 0);
    assert_eq!(nul_position(b"abc"), 3);
    assert_eq!(nul_position(b""), 0);
}

#[test]
fn ascii_bytes_become_text() {
    assert_eq!(ascii_string(b"WIMAP0"), Some(String::from("WIMAP0")));
    assert_eq!(ascii_string(b""), Some(String::new()));
    assert_eq!(ascii_string(b"a\0b\x7f"), Some(String::from("a\0b\x7f")));
    assert_eq!(ascii_string(b"caf\xC3\xA9"), None);
    assert_eq!(ascii_string(b"\x80"), None);
}

#[test]
fn texts_are_compared_byte_for_byte() {
    assert!(same_text("THINGS", "THINGS"));
    assert!(same_text("", ""));
    assert!(!same_text("THINGS", "things"));
    assert!(!same_text("THINGS", "THING"));
    assert!(!same_text("SEGS", "SEGZ"));
}
