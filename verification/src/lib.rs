//! Versioned, compressed container files with crash-safe replacement.
//!
//! The library covers the two halves of a small persistence layer:
//! a container codec that frames a serialized document behind a
//! validated header (magic, codec id, schema version, length), and a
//! model of the atomic-replace protocol that writes such a file to
//! disk without ever exposing a partially written destination.

mod atomic;
mod compress;
mod container;
mod document;
mod errors;
mod header;

pub use atomic::{
    apply_step, apply_steps, extension_dot_within, fallback_suffix, is_separator,
    lemma_completed_save_installs, lemma_interrupted_save_preserves_dest,
    lemma_no_commit_preserves_dest, lemma_temp_path_distinct, lemma_temp_path_marked,
    name_has_extension, save_steps, temp_path_for, temp_path_of, tmp_suffix, FsModel, SaveStep,
    SimFs,
};
pub use compress::{deflate_of, inflate_of};
pub use container::{
    container_seq, decode_container, decode_spec, encode_container, has_magic,
    lemma_bad_magic_rejected, lemma_container_round_trip, lemma_encode_deterministic,
    lemma_truncated_header_rejected, lemma_unsupported_codec_rejected, LoadedContainer,
};
pub use document::{decode_document, encode_document, json_flat_of, json_parse_of, load_spec};
pub use errors::{to_s, FormatFault, Td6Error};
pub use header::{encode_header, header_seq, magic_seq, CODEC_ZSTD, HEADER_LEN};
