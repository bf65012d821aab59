//! Encoding and decoding of whole container files, at the level of
//! the flat (already serialized) document bytes.
//!
//! `encode_container` frames a flat document behind the fixed header
//! and the compressed payload; `decode_container` validates every
//! header field in order and recovers the flat document. The spec
//! function `decode_spec` pins down exactly which input bytes decode,
//! to what, and which of the error taxonomy each rejected input
//! reports.

use vstd::prelude::*;
use vstd::bytes::{
    lemma_auto_spec_u32_to_from_le_bytes, lemma_auto_spec_u64_to_from_le_bytes,
    spec_u32_from_le_bytes, spec_u64_from_le_bytes, u32_from_le_bytes, u64_from_le_bytes,
};
use vstd::slice::{slice_index_get, slice_subrange};
use crate::compress::{deflate_of, inflate_of, zstd_compress, zstd_decompress};
use crate::errors::{FormatFault, Td6Error};
use crate::header::{encode_header, header_seq, magic_seq, CODEC_ZSTD, HEADER_LEN};

verus! {

/// A successfully decoded container: the stored schema version, the
/// stored (advisory, never cross-checked) uncompressed length, and
/// the recovered flat document bytes.
pub struct LoadedContainer {
    /// Schema version the writer stored; opaque to this layer.
    pub schema_major: u32,
    /// The writer's record of the document length before compression.
    /// Advisory only: it is not required to match `document_bytes`.
    pub uncompressed_len: u64,
    /// The decompressed flat document encoding.
    pub document_bytes: Vec<u8>,
}

/// The complete byte sequence of a container file holding the flat
/// document `flat` under schema version `schema_major`.
pub open spec fn container_seq(flat: Seq<u8>, schema_major: u32) -> Seq<u8> {
    header_seq(schema_major, flat.len() as u64) + deflate_of(flat)
}

/// Whether `b` begins with the 4-byte magic sentinel.
pub open spec fn has_magic(b: Seq<u8>) -> bool {
    b.len() >= 4 && b.subrange(0, 4) == magic_seq()
}

/// What decoding `b` yields: on success the stored schema version,
/// the stored uncompressed length and the flat document bytes; on
/// failure, exactly which error. Header fields are judged in order:
/// magic, then codec id, then presence of the remaining fields.
pub open spec fn decode_spec(b: Seq<u8>) -> Result<(u32, u64, Seq<u8>), Td6Error> {
    if !has_magic(b) {
        Err(Td6Error::FormatError(FormatFault::BadMagic))
    } else if b.len() >= 5 && b[4] != CODEC_ZSTD {
        Err(Td6Error::FormatError(FormatFault::UnsupportedCodec))
    } else if b.len() < HEADER_LEN {
        Err(Td6Error::FormatError(FormatFault::TruncatedHeader))
    } else {
        match inflate_of(b.skip(HEADER_LEN as int)) {
            Some(flat) => Ok(
                (
                    spec_u32_from_le_bytes(b.subrange(5, 9)),
                    spec_u64_from_le_bytes(b.subrange(9, 17)),
                    flat,
                ),
            ),
            None => Err(Td6Error::CodecError),
        }
    }
}

/// Compress `document_bytes` and frame it behind the header. The
/// result is always `Ok`, exactly the container for these inputs, and
/// decoding it recovers them. The `Result` shape mirrors the save
/// interface's error taxonomy, which reserves `CodecError` for a
/// compressor failure; the supported codec cannot fail on an
/// in-memory buffer, so that error never arises here.
pub fn encode_container(document_bytes: &Vec<u8>, schema_major: u32) -> (r: Result<
    Vec<u8>,
    Td6Error,
>)
    ensures
        r is Ok,
        r.unwrap()@ == container_seq(document_bytes@, schema_major),
        decode_spec(r.unwrap()@) == Ok::<_, Td6Error>(
            (schema_major, document_bytes@.len() as u64, document_bytes@),
        ),
{
    let un_len = document_bytes.len() as u64;
    let mut out = encode_header(schema_major, un_len);
    let mut compressed = zstd_compress(document_bytes).unwrap();
    out.append(&mut compressed);
    proof {
        lemma_auto_spec_u32_to_from_le_bytes();
        lemma_auto_spec_u64_to_from_le_bytes();
        assert(out@ =~= container_seq(document_bytes@, schema_major));
        assert(out@.subrange(0, 4) =~= magic_seq());
        assert(out@.subrange(5, 9) =~= vstd::bytes::spec_u32_to_le_bytes(schema_major));
        assert(out@.subrange(9, 17) =~= vstd::bytes::spec_u64_to_le_bytes(un_len));
        assert(out@.skip(HEADER_LEN as int) =~= deflate_of(document_bytes@));
    }
    Ok(out)
}

/// Validate the header of `bytes` and decompress the payload. The
/// result is exactly `decode_spec(bytes@)`.
pub fn decode_container(bytes: &[u8]) -> (r: Result<LoadedContainer, Td6Error>)
    ensures
        (r is Ok) == (decode_spec(bytes@) is Ok),
        r is Ok ==> (
            r.unwrap().schema_major,
            r.unwrap().uncompressed_len,
            r.unwrap().document_bytes@,
        ) == decode_spec(bytes@).unwrap(),
        r is Err ==> r->Err_0 == decode_spec(bytes@)->Err_0,
{
    if bytes.len() < 4 {
        return Err(Td6Error::FormatError(FormatFault::BadMagic));
    }
    let m0 = *slice_index_get(bytes, 0);
    let m1 = *slice_index_get(bytes, 1);
    let m2 = *slice_index_get(bytes, 2);
    let m3 = *slice_index_get(bytes, 3);
    if !(m0 == 0x54 && m1 == 0x44 && m2 == 0x36 && m3 == 0x00) {
        proof {
            assert(bytes@.subrange(0, 4) != magic_seq());
        }
        return Err(Td6Error::FormatError(FormatFault::BadMagic));
    }
    proof {
        assert(bytes@.subrange(0, 4) =~= magic_seq());
    }
    if bytes.len() >= 5 {
        let codec = *slice_index_get(bytes, 4);
        if codec != CODEC_ZSTD {
            return Err(Td6Error::FormatError(FormatFault::UnsupportedCodec));
        }
    }
    if bytes.len() < HEADER_LEN {
        return Err(Td6Error::FormatError(FormatFault::TruncatedHeader));
    }
    let schema_major = u32_from_le_bytes(slice_subrange(bytes, 5, 9));
    let uncompressed_len = u64_from_le_bytes(slice_subrange(bytes, 9, 17));
    let payload = slice_subrange(bytes, HEADER_LEN, bytes.len());
    proof {
        assert(payload@ =~= bytes@.skip(HEADER_LEN as int));
    }
    match zstd_decompress(payload) {
        Some(document_bytes) => Ok(
            LoadedContainer { schema_major, uncompressed_len, document_bytes },
        ),
        None => Err(Td6Error::CodecError),
    }
}

/// Law: decoding the container built from `flat` and `schema_major`
/// recovers both, provided the codec inverts its own output on that
/// input (which the compressor wrapper states of every frame it
/// produces).
pub proof fn lemma_container_round_trip(flat: Seq<u8>, schema_major: u32)
    requires
        flat.len() <= u64::MAX,
        inflate_of(deflate_of(flat)) == Some(flat),
    ensures
        decode_spec(container_seq(flat, schema_major)) == Ok::<_, Td6Error>(
            (schema_major, flat.len() as u64, flat),
        ),
{
    lemma_auto_spec_u32_to_from_le_bytes();
    lemma_auto_spec_u64_to_from_le_bytes();
    let b = container_seq(flat, schema_major);
    assert(b.subrange(0, 4) =~= magic_seq());
    assert(b.subrange(5, 9) =~= vstd::bytes::spec_u32_to_le_bytes(schema_major));
    assert(b.subrange(9, 17) =~= vstd::bytes::spec_u64_to_le_bytes(flat.len() as u64));
    assert(b.skip(HEADER_LEN as int) =~= deflate_of(flat));
}

/// Law: the container bytes are a function of the flat document and
/// the schema version alone, so saving the same pair twice produces
/// byte-identical files.
pub proof fn lemma_encode_deterministic(
    flat: Seq<u8>,
    schema_major: u32,
    first: Seq<u8>,
    second: Seq<u8>,
)
    requires
        first == container_seq(flat, schema_major),
        second == container_seq(flat, schema_major),
    ensures
        first == second,
{
}

/// Law: whatever follows them, bytes that do not begin with the
/// 4-byte magic sentinel are rejected as `BadMagic`.
pub proof fn lemma_bad_magic_rejected(b: Seq<u8>)
    requires
        b.len() < 4 || b.subrange(0, 4) != magic_seq(),
    ensures
        decode_spec(b) == Err::<(u32, u64, Seq<u8>), _>(
            Td6Error::FormatError(FormatFault::BadMagic),
        ),
{
}

/// Law: a valid magic followed by an unrecognized codec id byte is
/// rejected as `UnsupportedCodec`, whatever the remaining bytes hold.
pub proof fn lemma_unsupported_codec_rejected(b: Seq<u8>)
    requires
        b.len() >= 5,
        b.subrange(0, 4) == magic_seq(),
        b[4] != CODEC_ZSTD,
    ensures
        decode_spec(b) == Err::<(u32, u64, Seq<u8>), _>(
            Td6Error::FormatError(FormatFault::UnsupportedCodec),
        ),
{
}

/// Law: bytes cut off anywhere within the 17-byte header are rejected
/// with some `FormatError`, never decoded.
pub proof fn lemma_truncated_header_rejected(b: Seq<u8>)
    requires
        b.len() < HEADER_LEN,
    ensures
        decode_spec(b) is Err,
        decode_spec(b)->Err_0 is FormatError,
{
}

} // verus!
