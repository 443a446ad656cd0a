use menu_driver::text_format::{push_decimal, push_hex};
use menu_driver::utf16::utf16_cstr_to_string;

fn units(s: &str) -> Vec<u16> {
    s.encode_utf16().collect()
}

#[test]
fn cstr_stops_at_first_nul() {
    let mut buf = units("Dell");
    buf.push(0);
    buf.extend(units("garbage"));
    assert_eq!(utf16_cstr_to_string(&buf), "Dell");
}

#[test]
fn cstr_without_nul_takes_whole_buffer() {
    let buf = units("Keyboard");
    assert_eq!(utf16_cstr_to_string(&buf), "Keyboard");
}

#[test]
fn cstr_empty_and_leading_nul() {
    assert_eq!(utf16_cstr_to_string(&[]), "");
    assert_eq!(utf16_cstr_to_string(&[0, 0x41, 0x42]), "");
}

#[test]
fn cstr_fixed_array_like_descriptor() {
    let mut arr = [0u16; 64];
    for (i, u) in units("SanDisk").iter().enumerate() {
        arr[i] = *u;
    }
    assert_eq!(utf16_cstr_to_string(&arr), "SanDisk");
}

#[test]
fn cstr_decodes_surrogate_pairs() {
    // U+1F600 is the pair D83D DE00
    let buf = [0x48, 0xD83D, 0xDE00, 0x49, 0];
    assert_eq!(utf16_cstr_to_string(&buf), "H\u{1F600}I");
}

#[test]
fn cstr_replaces_lone_surrogates() {
    let buf = [0x41, 0xD800, 0x42, 0];
    assert_eq!(utf16_cstr_to_string(&buf), "A\u{FFFD}B");
}

#[test]
fn decimal_digits() {
    let mut s = String::new();
    push_decimal(&mut s, 0);
    assert_eq!(s, "0");
    let mut s = String::from("n=");
    push_decimal(&mut s, 4294967295);
    assert_eq!(s, "n=4294967295");
    let mut s = String::new();
    push_decimal(&mut s, 10);
    assert_eq!(s, "10");
}

#[test]
fn hex_digits_fixed_width() {
    let mut s = String::new();
    push_hex(&mut s, 0x0A1B, 4);
    assert_eq!(s, "0A1B");
    let mut s = String::new();
    push_hex(&mut s, 5, 2);
    assert_eq!(s, "05");
    let mut s = String::new();
    push_hex(&mut s, 0xFFFF, 4);
    assert_eq!(s, "FFFF");
    let mut s = String::new();
    push_hex(&mut s, 0x1234, 2);
    assert_eq!(s, "34");
    let mut s = String::from("x");
    push_hex(&mut s, 7, 0);
    assert_eq!(s, "x");
}

#[test]
fn hex_matches_std_formatting() {
    for v in [0u16, 1, 0x9, 0xA, 0xFF, 0x1234, 0xBEEF, 0xFFFF] {
        let mut s = String::new();
        push_hex(&mut s, v as u64, 4);
        assert_eq!(s, format!("{:04X}", v));
    }
    for v in [0u8, 0x3, 0x7F, 0xE0, 0xFF] {
        let mut s = String::new();
        push_hex(&mut s, v as u64, 2);
        assert_eq!(s, format!("{:02X}", v));
    }
    for v in [0u64, 9, 10, 99, 100, 255, 65535, 4294967295, u64::MAX] {
        let mut s = String::new();
        push_decimal(&mut s, v);
        assert_eq!(s, format!("{}", v));
    }
}

#[test]
fn cstr_decoding_matches_std_on_mixed_units() {
    let samples: [&[u16]; 6] = [
        &[0xDC00, 0xD800, 0xD800, 0xDC00, 0x41],
        &[0xDBFF, 0xDFFF, 0xE000, 0xFFFF],
        &[0xD83D],
        &[0x0041, 0xDE00, 0xD83D, 0xDE00],
        &[0x00E9, 0x4E2D, 0x0000, 0xD800],
        &[0xD800, 0x0000, 0x0042],
    ];
    for units in samples {
        let len = units.iter().position(|&c| c == 0).unwrap_or(units.len());
        let s = utf16_cstr_to_string(units);
        assert_eq!(s, String::from_utf16_lossy(&units[..len]));
        assert!(s.chars().count() <= len);
        assert!(!s.contains('\0'));
    }
}

#[test]
fn cstr_roundtrip_of_encoded_text() {
    for s in ["", "Dell", "Café 中文 \u{1F600}\u{10FFFF}", "\u{FFFD}x"] {
        let mut buf: Vec<u16> = s.encode_utf16().collect();
        assert_eq!(utf16_cstr_to_string(&buf), s);
        buf.push(0);
        buf.extend([0xD800, 0x41, 0]);
        assert_eq!(utf16_cstr_to_string(&buf), s);
    }
}
