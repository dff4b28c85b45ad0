//! Message envelope, timestamp normalisation and session decisions of a
//! small peer-to-peer chat client.
mod config;
mod discovery;
mod message;
mod stamp;
mod text;

pub use config::{Config, DEFAULT_ALIAS, DEFAULT_TOPIC};
pub use discovery::{
    additions, changes_spec, lemma_reported_peer_kept, removals, view_changes, Discovery,
    ViewChange,
};
pub use message::{receive, rendering, Message, Person};
pub use stamp::{
    instant_ok, lemma_offset_change_keeps_instant, offset_ok, parsed_stamp, rendered_stamp, Stamp,
    StampError, MAX_SECS, MIN_SECS, STAMP_FORMAT,
};
pub use text::{all_space, is_space, lemma_trimmed_empty, trim_end_spec, trim_start_spec, trimmed};
