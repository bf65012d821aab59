//! Document-level round trips through the full save/load pipeline,
//! and the error paths of the document layer.

use td6::{decode_document, encode_document, Td6Error};

fn round_trip(text: &str, schema_major: u32) {
    let doc: serde_json::Value = serde_json::from_str(text).unwrap();
    let bytes = encode_document(&doc, schema_major).unwrap();
    let (major, loaded) = decode_document(&bytes).unwrap();
    assert_eq!(major, schema_major);
    assert_eq!(loaded, doc, "document {text}");
}

#[test]
fn round_trip_scalars() {
    round_trip("null", 0);
    round_trip("true", 1);
    round_trip("-12345678901234", 1);
    round_trip("2.5", 1);
    round_trip(r#""a string with unicode: é世界""#, 1);
}

#[test]
fn round_trip_structures() {
    round_trip("[]", 3);
    round_trip("{}", 3);
    round_trip(r#"[1, [2, [3, {"deep": null}]], "end"]"#, 3);
    round_trip(r#"{"a": {"b": {"c": [true, false]}}, "z": 0}"#, 3);
}

#[test]
fn round_trip_large_repetitive_document() {
    let mut items = Vec::new();
    for i in 0..2000 {
        items.push(format!(r#"{{"id": {i}, "label": "row row row"}}"#));
    }
    let text = format!("[{}]", items.join(","));
    round_trip(&text, 9);
}

#[test]
fn schema_major_extremes_are_preserved() {
    let doc: serde_json::Value = serde_json::from_str("[0]").unwrap();
    for major in [0u32, 1, u32::MAX] {
        let bytes = encode_document(&doc, major).unwrap();
        let (got, _) = decode_document(&bytes).unwrap();
        assert_eq!(got, major);
    }
}

#[test]
fn payload_that_is_not_json_is_a_deserialization_error() {
    let flat: Vec<u8> = b"definitely not json".to_vec();
    let bytes = td6::encode_container(&flat, 1).unwrap();
    assert_eq!(
        decode_document(&bytes).unwrap_err(),
        Td6Error::DeserializationError,
    );
}

#[test]
fn compressed_payload_differs_from_flat_encoding() {
    // Guards the compression step itself: the stored payload must be
    // a zstd frame, not the serialized document copied through.
    let doc: serde_json::Value = serde_json::from_str(r#"{"title": "demo"}"#).unwrap();
    let flat = serde_json::to_vec(&doc).unwrap();
    let bytes = encode_document(&doc, 1).unwrap();
    assert_ne!(&bytes[17..], &flat[..]);
    let recovered = zstd::stream::decode_all(&bytes[17..]).unwrap();
    assert_eq!(recovered, flat);
}
