//! Byte layout of the fixed-size container header.
//!
//! A container file begins with a 17-byte header, all integers
//! little-endian:
//!
//! | offset | size | field            |
//! |--------|------|------------------|
//! | 0      | 4    | magic sentinel   |
//! | 4      | 1    | codec id         |
//! | 5      | 4    | schema_major     |
//! | 9      | 8    | uncompressed_len |
//!
//! The compressed payload follows immediately, with no padding.

use vstd::prelude::*;
use vstd::bytes::{
    spec_u32_to_le_bytes, spec_u64_to_le_bytes, u32_to_le_bytes, u64_to_le_bytes,
};

verus! {

/// Codec id of the one supported compressor (a zstd stream).
pub const CODEC_ZSTD: u8 = 1;

/// Total size of the fixed header in bytes.
pub const HEADER_LEN: usize = 17;

/// The 4-byte magic sentinel that identifies the format: `b"TD6\0"`.
pub open spec fn magic_seq() -> Seq<u8> {
    seq![0x54u8, 0x44u8, 0x36u8, 0x00u8]
}

/// The full 17-byte header for a document of `uncompressed_len` bytes
/// saved under schema version `schema_major`.
pub open spec fn header_seq(schema_major: u32, uncompressed_len: u64) -> Seq<u8> {
    magic_seq() + seq![CODEC_ZSTD] + spec_u32_to_le_bytes(schema_major)
        + spec_u64_to_le_bytes(uncompressed_len)
}

/// Build the header bytes for the given schema version and
/// uncompressed document length.
pub fn encode_header(schema_major: u32, uncompressed_len: u64) -> (r: Vec<u8>)
    ensures
        r@ == header_seq(schema_major, uncompressed_len),
        r@.len() == HEADER_LEN,
{
    let mut out: Vec<u8> = Vec::new();
    out.push(0x54);
    out.push(0x44);
    out.push(0x36);
    out.push(0x00);
    out.push(CODEC_ZSTD);
    let major_bytes = u32_to_le_bytes(schema_major);
    out.extend_from_slice(major_bytes.as_slice());
    let len_bytes = u64_to_le_bytes(uncompressed_len);
    out.extend_from_slice(len_bytes.as_slice());
    proof {
        assert(out@ =~= header_seq(schema_major, uncompressed_len));
    }
    out
}

} // verus!
