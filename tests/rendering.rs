use hex_display::{Hex, HexDisplayExt, UpperHex};

#[test]
fn test_all_bytes() {
    for byte in 0..=0xffu8 {
        assert_eq!(format!("{:02x}", byte), Hex(&[byte]).to_string());
        assert_eq!(format!("{:02X}", byte), UpperHex(&[byte]).to_string());
    }
}

#[test]
fn test_all_byte_pairs() {
    for (a, b) in (0..=0xffu8).zip(0..=0xffu8) {
        assert_eq!(format!("{:02x}{:02x}", a, b), Hex(&[a, b]).to_string());
        assert_eq!(
            format!("{:02X}{:02X}", a, b),
            UpperHex(&[a, b]).to_string()
        );
    }
}

#[test]
fn eight_bytes_render_in_both_cases() {
    let bytes = [0x01, 0x23, 0x45, 0x67, 0x89, 0xab, 0xcd, 0xef];
    assert_eq!(bytes.hex().to_string(), "0123456789abcdef");
    assert_eq!(bytes.upper_hex().to_string(), "0123456789ABCDEF");
    assert_eq!(Hex(&bytes).to_string(), "0123456789abcdef");
    assert_eq!(UpperHex(&bytes).to_string(), "0123456789ABCDEF");
}

#[test]
fn adjacent_bytes_keep_their_order() {
    assert_eq!(Hex(&[0xAB, 0x01]).to_string(), "ab01");
    assert_eq!(UpperHex(&[0xAB, 0x01]).to_string(), "AB01");
}

#[test]
fn empty_bytes_render_empty() {
    let empty: [u8; 0] = [];
    assert_eq!(Hex(&empty).to_string(), "");
    assert_eq!(UpperHex(&empty).to_string(), "");
    assert_eq!(empty.hex_string(), "");
    assert_eq!(empty.upper_hex_string(), "");
}

#[test]
fn single_bytes_are_zero_padded() {
    assert_eq!(Hex(&[0x01]).to_string(), "01");
    assert_eq!(Hex(&[0x00]).to_string(), "00");
    assert_eq!(Hex(&[0xAB]).to_string(), "ab");
    assert_eq!(UpperHex(&[0xAB]).to_string(), "AB");
    assert_eq!(UpperHex(&[0xff]).to_string(), "FF");
}

#[test]
fn text_has_two_digits_per_byte() {
    let bytes: Vec<u8> = (0..=0xffu8).rev().collect();
    let lower = bytes.hex_string();
    let upper = bytes.upper_hex_string();
    assert_eq!(lower.len(), 2 * bytes.len());
    assert_eq!(upper.len(), 2 * bytes.len());
    assert!(lower.chars().all(|c| matches!(c, '0'..='9' | 'a'..='f')));
    assert!(upper.chars().all(|c| matches!(c, '0'..='9' | 'A'..='F')));
}

#[test]
fn upper_text_is_capitalized_lower_text() {
    let bytes = [0x00, 0x9a, 0xbc, 0xde, 0xf0, 0x5f];
    let lower = bytes.hex_string();
    let upper = bytes.upper_hex_string();
    assert_eq!(lower.to_ascii_uppercase(), upper);
    assert_eq!(upper.to_ascii_lowercase(), lower);
}

#[test]
fn case_conversions_round_trip() {
    let bytes = [0xde, 0xad, 0xbe, 0xef];
    assert_eq!(Hex(&bytes).lower().upper().to_string(), Hex(&bytes).upper().to_string());
    assert_eq!(
        UpperHex(&bytes).upper().lower().to_string(),
        UpperHex(&bytes).lower().to_string()
    );
    assert_eq!(Hex(&bytes).upper().lower().to_string(), "deadbeef");
    assert_eq!(UpperHex(&bytes).lower().upper().to_string(), "DEADBEEF");
    assert_eq!(Hex(&bytes).lower().to_string(), "deadbeef");
    assert_eq!(UpperHex(&bytes).upper().to_string(), "DEADBEEF");
}

#[test]
fn slices_and_arrays_build_the_same_views() {
    let array = [0x12, 0x34, 0xab];
    let slice: &[u8] = &array;
    assert_eq!(array.hex_string(), "1234ab");
    assert_eq!(slice.hex_string(), "1234ab");
    assert_eq!(array.upper_hex_string(), "1234AB");
    assert_eq!(slice.upper_hex_string(), "1234AB");
    assert_eq!(slice.hex().0, &array[..]);
}

#[test]
fn write_to_appends_after_existing_text() {
    let mut out = String::from("id=");
    Hex(&[0x0f, 0xa0]).write_to(&mut out);
    assert_eq!(out, "id=0fa0");
    UpperHex(&[0x0f, 0xa0]).write_to(&mut out);
    assert_eq!(out, "id=0fa00FA0");
}
