//! Core of an ABX listening tool: a model of a media-processing graph that
//! decodes several audio files at once and routes exactly one of them to the
//! speaker, with instant switching between sources.
//!
//! The graph itself (decoding, mixing, output) is driven by an external media
//! engine; this crate holds the verified control logic: building decode
//! branches, the source registry with its mute-gate invariant, the playback
//! lifecycle, and the termination watcher's reaction to engine notifications.

pub mod errors;
pub mod graph;
pub mod laws;
pub mod registry;
pub mod selector;
pub mod source;
pub mod watcher;

pub use selector::AudioSelector;
pub use source::AudioSource;
