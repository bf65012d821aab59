//! Error taxonomy of the persistence layer.
//!
//! Every failure is reported at the point of first detection and
//! surfaced across the UI boundary as a human-readable message
//! string; `to_s` performs that mapping.

use vstd::prelude::*;

verus! {

/// Why a byte sequence is not a valid or supported container.
#[derive(Clone, Copy, Debug, PartialEq, Eq, Structural)]
pub enum FormatFault {
    /// Fewer than four bytes, or the first four differ from the magic
    /// sentinel: the bytes are not this format at all.
    BadMagic,
    /// The codec id byte names no supported compressor.
    UnsupportedCodec,
    /// The fixed header breaks off before every field is present.
    TruncatedHeader,
}

/// Every failure the persistence layer reports.
#[derive(Clone, Copy, Debug, PartialEq, Eq, Structural)]
pub enum Td6Error {
    /// The bytes are not a valid or supported container file.
    FormatError(FormatFault),
    /// Compression or decompression failed on otherwise well-framed
    /// bytes.
    CodecError,
    /// The document could not be serialized to its flat encoding.
    SerializationError,
    /// The decompressed payload does not parse back into a document.
    DeserializationError,
    /// A filesystem operation failed; the destination file is left as
    /// it was.
    IoError,
}

/// The message text that `to_s` yields for each error.
pub open spec fn message_seq(e: Td6Error) -> Seq<char> {
    match e {
        Td6Error::FormatError(FormatFault::BadMagic) => "Not a TD6 file (bad magic)"@,
        Td6Error::FormatError(FormatFault::UnsupportedCodec) => "Unsupported codec (expected zstd)"@,
        Td6Error::FormatError(FormatFault::TruncatedHeader) => "Truncated TD6 header"@,
        Td6Error::CodecError => "Compression codec failure"@,
        Td6Error::SerializationError => "Could not serialize document"@,
        Td6Error::DeserializationError => "Could not deserialize document"@,
        Td6Error::IoError => "File I/O failure"@,
    }
}

/// Render an error as the message string that crosses the UI
/// boundary.
pub fn to_s(e: &Td6Error) -> (r: String)
    ensures
        r@ == message_seq(*e),
{
    match e {
        Td6Error::FormatError(FormatFault::BadMagic) => "Not a TD6 file (bad magic)".to_owned(),
        Td6Error::FormatError(FormatFault::UnsupportedCodec) => "Unsupported codec (expected zstd)".to_owned(),
        Td6Error::FormatError(FormatFault::TruncatedHeader) => "Truncated TD6 header".to_owned(),
        Td6Error::CodecError => "Compression codec failure".to_owned(),
        Td6Error::SerializationError => "Could not serialize document".to_owned(),
        Td6Error::DeserializationError => "Could not deserialize document".to_owned(),
        Td6Error::IoError => "File I/O failure".to_owned(),
    }
}

} // verus!
