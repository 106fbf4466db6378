//! Texts and numbers on their way to the engine.

use spatial_ref::cint::c_int;
use spatial_ref::{CText, GdalError};

#[test]
fn text_gets_one_zero_byte_at_its_end() {
    let text = CText::new("EPSG:4326").unwrap();
    assert_eq!(text.as_bytes_with_nul(), b"EPSG:4326\0");
}

#[test]
fn empty_text_is_the_zero_byte_alone() {
    let text = CText::new("").unwrap();
    assert_eq!(text.as_bytes_with_nul(), b"\0");
}

#[test]
fn text_beyond_ascii_goes_over_as_utf8() {
    let text = CText::new("Gauß-Krüger ζ").unwrap();
    let mut expected = "Gauß-Krüger ζ".as_bytes().to_vec();
    expected.push(0);
    assert_eq!(text.as_bytes_with_nul(), expected.as_slice());
    assert_eq!(text.as_bytes_with_nul().len(), 17);
}

#[test]
fn text_with_nul_is_refused_with_the_place_of_the_nul() {
    assert_eq!(
        CText::new("GEOGCS\0junk").unwrap_err(),
        GdalError::FfiNulError { position: 6 }
    );
}

#[test]
fn the_first_nul_counts() {
    assert_eq!(
        CText::new("a\0b\0c").unwrap_err(),
        GdalError::FfiNulError { position: 1 }
    );
    assert_eq!(
        CText::new("\0").unwrap_err(),
        GdalError::FfiNulError { position: 0 }
    );
    assert_eq!(
        CText::new("spam\0").unwrap_err(),
        GdalError::FfiNulError { position: 4 }
    );
}

#[test]
fn the_place_of_a_nul_counts_bytes_not_characters() {
    // 'ü' takes two bytes, so the NUL after "Krü" is the fifth byte.
    assert_eq!(
        CText::new("Krü\0ger").unwrap_err(),
        GdalError::FfiNulError { position: 4 }
    );
}

#[test]
fn a_text_is_refused_exactly_if_it_holds_a_nul() {
    let texts = [
        "",
        "+proj=longlat +datum=WGS84 +no_defs",
        "satellite_height",
        "a\0",
        "\0a",
        "√2 ≈ 1.41",
        "mid\0dle\0",
        "√\02",
    ];
    for text in texts {
        match CText::new(text) {
            Ok(marshaled) => {
                assert!(!text.contains('\0'));
                let buffer = marshaled.as_bytes_with_nul();
                assert_eq!(&buffer[..buffer.len() - 1], text.as_bytes());
                assert_eq!(buffer[buffer.len() - 1], 0);
            }
            Err(GdalError::FfiNulError { position }) => {
                assert_eq!(Some(position), text.find('\0'));
            }
            Err(other) => panic!("{:?}", other),
        }
    }
}

#[test]
fn small_numbers_go_over_unchanged() {
    assert_eq!(c_int(0), 0);
    assert_eq!(c_int(4326), 4326);
    assert_eq!(c_int(32632), 32632);
    assert_eq!(c_int(2_147_483_647), i32::MAX);
}

#[test]
fn large_numbers_go_over_bit_for_bit() {
    assert_eq!(c_int(2_147_483_648), i32::MIN);
    assert_eq!(c_int(2_147_483_649), i32::MIN + 1);
    assert_eq!(c_int(u32::MAX), -1);
    assert_eq!(c_int(4_294_962_970), -4326);
}

#[test]
fn numbers_go_over_as_a_cast_would_take_them() {
    let values = [0u32, 1, 3025, 2154, 2_147_483_647, 2_147_483_648, 3_000_000_000, u32::MAX];
    for value in values {
        assert_eq!(c_int(value), value as i32);
    }
}
