//! Saving and loading whole documents: the JSON layer over the
//! container codec.
//!
//! The document itself is opaque to this layer — an arbitrary
//! `serde_json::Value` owned by the caller. The two wrappers below
//! are the only places its serializer is called; their contracts
//! relate the flat byte encoding and the parsed value through the
//! named results `json_flat_of` and `json_parse_of`, which is enough
//! to state, and prove, that a saved document loads back equal
//! whenever its flat encoding parses back to an equal value.

use vstd::prelude::*;
use crate::container::{container_seq, decode_container, decode_spec, encode_container};
use crate::errors::Td6Error;

verus! {

#[verifier::external_type_specification]
#[verifier::external_body]
pub struct ExValue(serde_json::Value);

/// The flat byte encoding that serializing `v` produces.
pub uninterp spec fn json_flat_of(v: serde_json::Value) -> Seq<u8>;

/// What parsing flat bytes yields: a document value, or `None` where
/// the bytes are not a valid document encoding.
pub uninterp spec fn json_parse_of(b: Seq<u8>) -> Option<serde_json::Value>;

/// Relies on `serde_json::to_vec`: serializing a `serde_json::Value`
/// into an in-memory buffer cannot fail (its map keys are always
/// strings, its serializer has no failing path, and a `Vec` writer
/// has none), and the encoding depends on the value alone (maps are
/// stored in key order). Nothing is claimed about parsing the bytes
/// back: the parser bounds its recursion where the serializer does
/// not, and float formatting need not parse back to the same bits,
/// so not every value's encoding round-trips.
#[verifier::external_body]
fn json_to_bytes(v: &serde_json::Value) -> (r: Option<Vec<u8>>)
    ensures
        r is Some,
        r.unwrap()@ == json_flat_of(*v),
{
    serde_json::to_vec(v).ok()
}

/// Relies on `serde_json::from_slice`: whether parsing succeeds, and
/// the value it yields, depend on the input bytes alone.
#[verifier::external_body]
fn json_from_bytes(b: &[u8]) -> (r: Option<serde_json::Value>)
    ensures
        r == json_parse_of(b@),
{
    serde_json::from_slice(b).ok()
}

/// What loading container bytes yields at the document level: the
/// stored schema version and the parsed document, or the first error
/// met — a header or codec failure from the container layer, else
/// `DeserializationError` where the payload is not a document.
pub open spec fn load_spec(b: Seq<u8>) -> Result<(u32, serde_json::Value), Td6Error> {
    match decode_spec(b) {
        Ok((schema_major, uncompressed_len, flat)) => match json_parse_of(flat) {
            Some(v) => Ok((schema_major, v)),
            None => Err(Td6Error::DeserializationError),
        },
        Err(e) => Err(e),
    }
}

/// Serialize `doc`, compress it, and frame it behind the header: the
/// complete byte sequence of the container file to write. The result
/// is always `Ok`, and exactly the container for `doc`'s flat
/// encoding; the `Result` shape mirrors the save interface's error
/// taxonomy, which reserves `SerializationError` and `CodecError`
/// for a failing serializer or compressor, and with this serializer
/// and compressor neither failure exists. Loading the bytes recovers
/// `schema_major` and a value equal to `doc` — the round trip — for
/// every document representable in the flat encoding, that is, one
/// whose encoding parses back to an equal value.
pub fn encode_document(doc: &serde_json::Value, schema_major: u32) -> (r: Result<
    Vec<u8>,
    Td6Error,
>)
    ensures
        r is Ok,
        r.unwrap()@ == container_seq(json_flat_of(*doc), schema_major),
        json_parse_of(json_flat_of(*doc)) == Some(*doc) ==> load_spec(r.unwrap()@)
            == Ok::<_, Td6Error>((schema_major, *doc)),
{
    let flat = json_to_bytes(doc).unwrap();
    encode_container(&flat, schema_major)
}

/// Decode container bytes and parse the payload back into the
/// document value the writer saved, with the schema version it
/// stored. The result is exactly `load_spec(bytes@)`.
pub fn decode_document(bytes: &[u8]) -> (r: Result<(u32, serde_json::Value), Td6Error>)
    ensures
        (r is Ok) == (load_spec(bytes@) is Ok),
        r is Ok ==> r.unwrap() == load_spec(bytes@).unwrap(),
        r is Err ==> r->Err_0 == load_spec(bytes@)->Err_0,
{
    match decode_container(bytes) {
        Ok(loaded) => match json_from_bytes(loaded.document_bytes.as_slice()) {
            Some(v) => Ok((loaded.schema_major, v)),
            None => Err(Td6Error::DeserializationError),
        },
        Err(e) => Err(e),
    }
}

} // verus!
