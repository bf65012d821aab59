//! The one supported payload compressor, behind trusted wrappers.
//!
//! The container format stores its payload as a zstd frame produced
//! at a fixed compression level. The two wrappers below are the only
//! places the compressor is called; everything the rest of the crate
//! knows about it is stated in their contracts, over the two named
//! results `deflate_of` and `inflate_of`.

use vstd::prelude::*;

verus! {

/// The compressed frame that the supported codec produces for `data`
/// at the fixed compression level.
pub uninterp spec fn deflate_of(data: Seq<u8>) -> Seq<u8>;

/// What decompressing `data` yields: the recovered bytes, or `None`
/// where `data` is not a well-formed compressed frame.
pub uninterp spec fn inflate_of(data: Seq<u8>) -> Option<Seq<u8>>;

/// Relies on `zstd::stream::encode_all` at level 9: compressing into
/// an in-memory buffer at a fixed valid level cannot fail (the only
/// error paths are the writer's, and a `Vec` writer has none), the
/// output frame depends on the input bytes alone, and decoding it
/// recovers the input exactly (the compressor is lossless).
#[verifier::external_body]
pub(crate) fn zstd_compress(data: &Vec<u8>) -> (r: Option<Vec<u8>>)
    ensures
        r is Some,
        r.unwrap()@ == deflate_of(data@),
        inflate_of(r.unwrap()@) == Some(data@),
{
    zstd::stream::encode_all(data.as_slice(), 9).ok()
}

/// Relies on `zstd::stream::decode_all`: whether decoding succeeds,
/// and what it yields, depend on the input bytes alone.
#[verifier::external_body]
pub(crate) fn zstd_decompress(data: &[u8]) -> (r: Option<Vec<u8>>)
    ensures
        (r is Some) == (inflate_of(data@) is Some),
        r is Some ==> Some(r.unwrap()@) == inflate_of(data@),
{
    zstd::stream::decode_all(data).ok()
}

} // verus!
