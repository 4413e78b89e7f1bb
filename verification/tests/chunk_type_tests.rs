use chunk_type::ChunkType;
use chunk_type::ChunkTypeError;

#[test]
fn test_chunk_type_from_bytes() {
    let expected: [u8; 4] = [82, 117, 83, 116];
    let actual = ChunkType::from_bytes([82, 117, 83, 116]).unwrap();

    assert_eq!(expected, actual.bytes());
}

#[test]
fn test_chunk_type_from_str() {
    let expected = ChunkType::from_bytes([82, 117, 83, 116]).unwrap();
    let actual = ChunkType::from_text("RuSt").unwrap();
    assert_eq!(expected, actual);
}

#[test]
fn test_valid_chunk_is_valid() {
    let chunk = ChunkType::from_text("RuSt").unwrap();
    assert!(chunk.is_valid());
}

#[test]
fn test_invalid_chunk_is_valid() {
    let chunk = ChunkType::from_text("Rust").unwrap();
    assert!(!chunk.is_valid());

    let chunk = ChunkType::from_text("Ru1t");
    assert!(chunk.is_err());
}

#[test]
fn test_from_text_equals_from_bytes() {
    let from_bytes = ChunkType::from_bytes([82, 117, 83, 116]).unwrap();
    let from_text = ChunkType::from_text("RuSt").unwrap();
    assert_eq!(from_bytes, from_text);
    assert_eq!(from_bytes.bytes(), from_text.bytes());
}

#[test]
fn test_from_text_rejects_non_letter() {
    let r = ChunkType::from_text("Ru1t");
    assert_eq!(r, Err(ChunkTypeError::InvalidTypeCode));
}

#[test]
fn test_from_bytes_rejects_non_letter_at_each_position() {
    for pos in 0..4 {
        let mut b: [u8; 4] = [82, 117, 83, 116];
        b[pos] = 49;
        assert_eq!(ChunkType::from_bytes(b), Err(ChunkTypeError::InvalidTypeCode));
    }
}

#[test]
fn test_letter_range_boundaries() {
    // The four corners of the two accepted ranges construct successfully.
    let t = ChunkType::from_bytes([65, 90, 97, 122]).unwrap();
    assert_eq!(t.bytes(), [65, 90, 97, 122]);
    // The bytes just outside each range boundary are rejected.
    for bad in [64u8, 91, 96, 123] {
        let b: [u8; 4] = [bad, 82, 83, 84];
        assert_eq!(ChunkType::from_bytes(b), Err(ChunkTypeError::InvalidTypeCode));
    }
}

#[test]
fn test_from_text_short_input_is_an_error() {
    assert_eq!(ChunkType::from_text(""), Err(ChunkTypeError::InvalidTypeCode));
    assert_eq!(ChunkType::from_text("RuS"), Err(ChunkTypeError::InvalidTypeCode));
}

#[test]
fn test_from_text_ignores_bytes_beyond_the_fourth() {
    let long = ChunkType::from_text("RuStIsFun").unwrap();
    let short = ChunkType::from_text("RuSt").unwrap();
    assert_eq!(long, short);
    assert_eq!(long.bytes(), [82, 117, 83, 116]);
}

#[test]
fn test_from_text_reads_raw_bytes_not_characters() {
    // "é" is two bytes in UTF-8 (0xC3 0xA9), neither an ASCII letter, so a
    // four-character text may still be rejected byte-wise.
    let r = ChunkType::from_text("éABC");
    assert_eq!(r, Err(ChunkTypeError::InvalidTypeCode));
}

#[test]
fn test_validity_depends_on_reserved_byte_case_only() {
    assert!(ChunkType::from_text("ruSt").unwrap().is_valid());
    assert!(ChunkType::from_text("RUST").unwrap().is_valid());
    assert!(!ChunkType::from_text("rust").unwrap().is_valid());
    assert!(!ChunkType::from_text("RUst").unwrap().is_valid());
}

#[test]
fn test_equality_is_positional() {
    let a = ChunkType::from_bytes([82, 117, 83, 116]).unwrap();
    let b = ChunkType::from_bytes([117, 82, 83, 116]).unwrap();
    assert_ne!(a, b);
}
