//! Cache directory tagging: recognising and establishing a `CACHEDIR.TAG`
//! marker that tells backup and archival tools a directory holds disposable
//! cache data.
//!
//! The library is free of I/O. Each operation is stated as a decision over
//! what was observed on the filesystem, so that its behaviour can be proved;
//! the caller performs the filesystem calls and hands their outcomes in.
mod cli;
mod laws;
mod materialize;
mod tag;

pub use tag::{
    ensure_outcome, ensure_tag, get_tag_state, header, header_matches, is_tagged, probe_state,
    probe_tagged, tag_header, ErrorKind, Failure, TagProbe, TagState, TAG_FILE_NAME,
};
pub use materialize::{
    answers, mkdir_atomic_next, mkdir_atomic_start, mkdir_transition, MkdirEvent, MkdirStep,
};
pub use laws::{
    lemma_created_only_by_publish, lemma_ensure_tag_twice, lemma_existing_target_untouched,
    lemma_failures_propagate, lemma_header_present, lemma_missing_tag_file,
    lemma_not_created_only_when_target_exists, lemma_other_content_wrong_header,
};
pub use cli::{cli_command, help_text, tag_report, usage_text, CliCommand};
