//! Checks files against a manifest of SHA-256 digests.
//!
//! The library holds the logic: parsing manifest lines, classifying each
//! listed file from what was observed of it, and folding the outcomes into
//! counters, warnings and an exit status. Reading files and printing stay
//! with the caller, which hands over plain values.
mod digest;
mod entry;
mod manifest;
mod status;

pub use digest::{hex_digit, hex_lower, sha256_of, Sha256Stream, MAX_HEX_INPUT_LEN, MAX_INPUT_LEN};
pub use entry::{
    describes, digest_sized, is_line_end, is_separator_at, lemma_absent_is_removed,
    lemma_differing_content_is_mismatch, lemma_matching_content_is_ok,
    lemma_probe_gives_file_status, lemma_unreadable_is_failed, parse_fields, separator_from,
    status_for, status_of_file, strip_line_end, FileProbe, FileState, ProbeView, SHASumEntry,
};
pub use manifest::{
    all_ok, count_of, count_warning, dec_digit, decimal, decimal_text, exit_code_of,
    lemma_rerun_same_outcome, statuses, warnings_for, Checked, SHASumFile,
};
pub use status::{label_of, FileStatus};
