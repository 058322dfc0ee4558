//! Error taxonomy of the ABX core.

use vstd::prelude::*;

verus! {

/// Everything that can go wrong while building or driving the audio graph.
#[derive(Clone, Copy, Debug, PartialEq, Eq, Structural)]
pub enum AbxError {
    /// A stage could not be created or configured (e.g. a bad file path).
    ConfigurationError,
    /// The mixing stage could not allocate a further input.
    ResourceExhausted,
    /// An asynchronous request to link a decoded stream to its mixer input failed.
    LinkFailure,
    /// A selection index at or past the end of the registry.
    IndexOutOfRange,
    /// A selection operation on a registry without sources.
    EmptyRegistry,
    /// Progress was queried before both position and duration were known.
    NotReady,
    /// The engine rejected an operation (e.g. a request through a stale handle).
    EngineError,
}

impl AbxError {
    /// A short human-readable description, in place of `Display`.
    pub fn describe(&self) -> (r: &'static str)
        ensures
            r@.len() > 0,
    {
        let r = match self {
            AbxError::ConfigurationError => "a stage could not be created or configured",
            AbxError::ResourceExhausted => "the mixer could not allocate an input",
            AbxError::LinkFailure => "a decoded stream could not be linked to the mixer",
            AbxError::IndexOutOfRange => "the selection index is out of range",
            AbxError::EmptyRegistry => "the registry holds no sources",
            AbxError::NotReady => "position and duration are not both known yet",
            AbxError::EngineError => "the engine rejected the operation",
        };
        proof {
            reveal_strlit("a stage could not be created or configured");
            reveal_strlit("the mixer could not allocate an input");
            reveal_strlit("a decoded stream could not be linked to the mixer");
            reveal_strlit("the selection index is out of range");
            reveal_strlit("the registry holds no sources");
            reveal_strlit("position and duration are not both known yet");
            reveal_strlit("the engine rejected the operation");
        }
        r
    }
}

} // verus!
