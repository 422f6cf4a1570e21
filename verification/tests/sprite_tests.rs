use imagesize::ImageError;
use vn_dialog::sprite::{dimensions_or_zero, sprite_bytes_admitted, sprite_size};

// A PNG header for an image 123 pixels wide and 321 high.
const PNG_123_BY_321: [u8; 32] = [
    0x89, 0x50, 0x4E, 0x47, 0x0D, 0x0A, 0x1A, 0x0A, 0x00, 0x00, 0x00, 0x0D, 0x49, 0x48, 0x44,
    0x52, 0x00, 0x00, 0x00, 0x7B, 0x00, 0x00, 0x01, 0x41, 0x08, 0x06, 0x00, 0x00, 0x00, 0x9A,
    0x38, 0xC4,
];

#[test]
fn size_of_a_png_header() {
    assert_eq!(sprite_size(Some(&PNG_123_BY_321[..])), (123, 321));
}

#[test]
fn unknown_format_is_zero() {
    let mut bytes = PNG_123_BY_321;
    bytes[1] = 0x89;
    assert_eq!(sprite_size(Some(&bytes[..])), (0, 0));
}

#[test]
fn short_data_is_zero() {
    assert_eq!(sprite_size(Some(&PNG_123_BY_321[..11])), (0, 0));
    assert_eq!(sprite_size(Some(&[][..])), (0, 0));
}

#[test]
fn unreadable_file_is_zero() {
    assert_eq!(sprite_size(None), (0, 0));
}

#[test]
fn probe_results() {
    assert_eq!(dimensions_or_zero(Ok((4, 5))), (4, 5));
    assert_eq!(dimensions_or_zero(Err(ImageError::NotSupported)), (0, 0));
    assert_eq!(dimensions_or_zero(Err(ImageError::CorruptedImage)), (0, 0));
}

#[test]
fn headers_that_cannot_overflow_are_admitted() {
    assert!(sprite_bytes_admitted(&PNG_123_BY_321[..]));
    assert!(sprite_bytes_admitted(&[][..]));
    assert!(sprite_bytes_admitted(b"isp"));
}

#[test]
fn an_ispe_tag_is_admitted_only_with_a_64_bit_usize() {
    assert_eq!(sprite_bytes_admitted(b"....ispe...."), usize::BITS == 64);
    assert!(sprite_bytes_admitted(b"....isp.e..."));
}
