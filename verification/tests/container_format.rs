//! Byte-level behaviour of the container codec: header layout,
//! rejection of malformed headers, and the advisory length field.

use td6::{decode_container, decode_document, encode_container, encode_document};
use td6::{to_s, FormatFault, Td6Error};

fn demo_doc() -> serde_json::Value {
    serde_json::from_str(r#"{"title": "demo", "count": 3}"#).unwrap()
}

#[test]
fn file_begins_with_magic_and_codec_byte() {
    let bytes = encode_document(&demo_doc(), 2).unwrap();
    assert_eq!(&bytes[0..4], b"TD6\0");
    assert_eq!(bytes[4], 0x01);
}

#[test]
fn concrete_round_trip() {
    let bytes = encode_document(&demo_doc(), 2).unwrap();
    let (schema_major, loaded) = decode_document(&bytes).unwrap();
    assert_eq!(schema_major, 2);
    assert_eq!(loaded, demo_doc());
}

#[test]
fn saving_twice_is_byte_identical() {
    let first = encode_document(&demo_doc(), 2).unwrap();
    let second = encode_document(&demo_doc(), 2).unwrap();
    assert_eq!(first, second);
}

#[test]
fn altered_magic_is_rejected() {
    let good = encode_document(&demo_doc(), 2).unwrap();
    for i in 0..4 {
        let mut bad = good.clone();
        bad[i] = bad[i].wrapping_add(1);
        assert_eq!(
            decode_document(&bad).unwrap_err(),
            Td6Error::FormatError(FormatFault::BadMagic),
            "byte {i} altered",
        );
    }
}

#[test]
fn empty_input_is_rejected_as_bad_magic() {
    assert_eq!(
        decode_document(&[]).unwrap_err(),
        Td6Error::FormatError(FormatFault::BadMagic),
    );
}

#[test]
fn unknown_codec_byte_is_rejected() {
    let good = encode_document(&demo_doc(), 2).unwrap();
    for codec in [0u8, 2, 9, 255] {
        let mut bad = good.clone();
        bad[4] = codec;
        assert_eq!(
            decode_document(&bad).unwrap_err(),
            Td6Error::FormatError(FormatFault::UnsupportedCodec),
            "codec byte {codec}",
        );
    }
}

#[test]
fn truncation_within_header_is_a_format_error() {
    let good = encode_document(&demo_doc(), 2).unwrap();
    for cut in 0..17 {
        let short = &good[0..cut];
        let err = decode_document(short).unwrap_err();
        assert!(
            matches!(err, Td6Error::FormatError(_)),
            "cut at {cut} gave {err:?}",
        );
    }
}

#[test]
fn truncation_within_payload_never_yields_a_document() {
    let good = encode_document(&demo_doc(), 2).unwrap();
    for cut in 17..good.len() {
        let short = &good[0..cut];
        let err = decode_document(short).unwrap_err();
        assert!(
            matches!(err, Td6Error::CodecError | Td6Error::DeserializationError),
            "cut at {cut} gave {err:?}",
        );
    }
}

#[test]
fn uncompressed_len_is_advisory_only() {
    let flat: Vec<u8> = br#"{"k": [1, 2, 3]}"#.to_vec();
    let mut bytes = encode_container(&flat, 7).unwrap();
    for b in &mut bytes[9..17] {
        *b = 0xFF;
    }
    let loaded = decode_container(&bytes).unwrap();
    assert_eq!(loaded.schema_major, 7);
    assert_eq!(loaded.uncompressed_len, u64::MAX);
    assert_eq!(loaded.document_bytes, flat);
}

#[test]
fn container_round_trip_on_raw_bytes() {
    let flat: Vec<u8> = b"not necessarily json at this layer \x00\x01\x02".to_vec();
    let bytes = encode_container(&flat, 42).unwrap();
    let loaded = decode_container(&bytes).unwrap();
    assert_eq!(loaded.schema_major, 42);
    assert_eq!(loaded.uncompressed_len, flat.len() as u64);
    assert_eq!(loaded.document_bytes, flat);
}

#[test]
fn magic_alone_is_a_truncated_header() {
    assert_eq!(
        decode_document(b"TD6\0").unwrap_err(),
        Td6Error::FormatError(FormatFault::TruncatedHeader),
    );
}

#[test]
fn error_messages() {
    assert_eq!(
        to_s(&Td6Error::FormatError(FormatFault::BadMagic)),
        "Not a TD6 file (bad magic)",
    );
    assert_eq!(
        to_s(&Td6Error::FormatError(FormatFault::UnsupportedCodec)),
        "Unsupported codec (expected zstd)",
    );
    assert_eq!(
        to_s(&Td6Error::FormatError(FormatFault::TruncatedHeader)),
        "Truncated TD6 header",
    );
    assert_eq!(to_s(&Td6Error::CodecError), "Compression codec failure");
    assert_eq!(to_s(&Td6Error::SerializationError), "Could not serialize document");
    assert_eq!(to_s(&Td6Error::DeserializationError), "Could not deserialize document");
    assert_eq!(to_s(&Td6Error::IoError), "File I/O failure");
}
