use pyo3_plugin::error::PluginError;
use pyo3_plugin::utf8::{validate_utf8, Utf8Text};

/// The validator must agree with the standard library's decoder.
fn agrees_with_std(bytes: &[u8]) {
    let expected = std::str::from_utf8(bytes).is_ok();
    assert_eq!(
        validate_utf8(&bytes.to_vec()),
        expected,
        "disagreement on {:?}",
        bytes
    );
}

#[test]
fn empty_input_is_valid() {
    agrees_with_std(b"");
}

#[test]
fn ascii_is_valid() {
    agrees_with_std(b"x = [i*10 for i in range(5)]\nassert x == [0,10,20,30,40]");
    agrees_with_std(&(0u8..0x80).collect::<Vec<u8>>());
}

#[test]
fn multibyte_sequences_are_valid() {
    agrees_with_std("é".as_bytes());
    agrees_with_std("\u{0800}".as_bytes());
    agrees_with_std("\u{6f22}\u{5b57}".as_bytes());
    agrees_with_std("\u{1f600}".as_bytes());
    agrees_with_std("mixed é \u{6f22} \u{1f600} ascii".as_bytes());
    // Boundary code points of each encoding length.
    agrees_with_std("\u{007f}\u{0080}\u{07ff}\u{0800}\u{ffff}\u{10000}\u{10ffff}".as_bytes());
}

#[test]
fn lone_continuation_byte_is_invalid() {
    agrees_with_std(&[0x80]);
    agrees_with_std(&[0xBF]);
}

#[test]
fn truncated_sequences_are_invalid() {
    agrees_with_std(&[0xC3]);
    agrees_with_std(&[0xE2, 0x82]);
    agrees_with_std(&[0xF0, 0x9F, 0x98]);
    agrees_with_std(b"ok\xC3");
}

#[test]
fn overlong_encodings_are_invalid() {
    // 0xC0/0xC1 always encode overlong forms.
    agrees_with_std(&[0xC0, 0xAF]);
    agrees_with_std(&[0xC1, 0x80]);
    // Overlong three- and four-byte forms.
    agrees_with_std(&[0xE0, 0x80, 0xAF]);
    agrees_with_std(&[0xF0, 0x80, 0x80, 0x80]);
}

#[test]
fn surrogates_are_invalid() {
    agrees_with_std(&[0xED, 0xA0, 0x80]);
    agrees_with_std(&[0xED, 0xBF, 0xBF]);
    // 0xED with a low continuation stays valid.
    agrees_with_std(&[0xED, 0x9F, 0xBF]);
}

#[test]
fn code_points_beyond_the_range_are_invalid() {
    agrees_with_std(&[0xF4, 0x90, 0x80, 0x80]);
    agrees_with_std(&[0xF5, 0x80, 0x80, 0x80]);
    agrees_with_std(&[0xFE]);
    agrees_with_std(&[0xFF]);
}

#[test]
fn stray_continuation_after_a_sequence_is_invalid() {
    agrees_with_std(&[0xC3, 0xA9, 0x80]);
}

#[test]
fn exhaustive_single_bytes_agree_with_std() {
    for b0 in 0u8..=0xFF {
        agrees_with_std(&[b0]);
    }
}

#[test]
fn exhaustive_two_byte_spans_agree_with_std() {
    for b0 in 0u8..=0xFF {
        for b1 in 0u8..=0xFF {
            agrees_with_std(&[b0, b1]);
        }
    }
}

const BOUNDARY_BYTES: [u8; 10] = [0x00, 0x7F, 0x80, 0x8F, 0x90, 0x9F, 0xA0, 0xBF, 0xC0, 0xFF];

#[test]
fn three_byte_spans_agree_with_std_on_boundaries() {
    for b0 in 0xE0u8..=0xEF {
        for b1 in BOUNDARY_BYTES {
            for b2 in BOUNDARY_BYTES {
                agrees_with_std(&[b0, b1, b2]);
            }
        }
    }
}

#[test]
fn four_byte_spans_agree_with_std_on_boundaries() {
    for b0 in 0xF0u8..=0xF5 {
        for b1 in BOUNDARY_BYTES {
            for b2 in BOUNDARY_BYTES {
                for b3 in BOUNDARY_BYTES {
                    agrees_with_std(&[b0, b1, b2, b3]);
                }
            }
        }
    }
}

#[test]
fn utf8_text_keeps_its_bytes() {
    let bytes = "print('h\u{00e9}llo')".as_bytes().to_vec();
    match Utf8Text::from_bytes(bytes.clone()) {
        Ok(t) => {
            assert_eq!(t.len(), bytes.len());
            assert_eq!(t.as_bytes().as_slice(), bytes.as_slice());
            assert_eq!(t.into_bytes(), bytes);
        }
        Err(_) => panic!("valid text must be accepted"),
    }
}

#[test]
fn utf8_text_rejects_invalid_bytes() {
    let r = Utf8Text::from_bytes(vec![0x66, 0x80]);
    assert!(matches!(r, Err(PluginError::InvalidUtf8)));
}
