//! Termination watcher: reacts to the engine's asynchronous notifications.
//!
//! The surrounding program drains the engine's notification bus and hands
//! each message here as a typed event, under the same lock that guards the
//! selector. The watch session ends on the first end-of-stream or failure:
//! either way the graph is driven to Stopped first, and the session records
//! whether it finished cleanly. Stream-discovery events perform the deferred
//! linking of a decoded stream to its mixer input; a linking failure is a
//! failure of the session, not of the caller that built the source.

use vstd::prelude::*;

use crate::errors::AbxError;
use crate::graph::{PlayState, StreamKind};
use crate::selector::AudioSelector;

verus! {

/// A notification from the engine's bus, as the typed event the watcher
/// consumes.
#[derive(Clone, Copy, Debug, PartialEq, Eq, Structural)]
pub enum GraphEvent {
    /// The graph has no more data to produce.
    EndOfStream,
    /// The engine reported a failure (decode error, broken stage, ...).
    EngineFault,
    /// A decoder of source `source` exposed an elementary stream of the
    /// given kind, ready to be linked to the source's mixer input.
    StreamReady { source: usize, kind: StreamKind },
    /// Any other notification; observed and ignored.
    Informational,
}

/// Where the watch session stands.
#[derive(Clone, Copy, Debug, PartialEq, Eq, Structural)]
pub enum WatchStatus {
    /// Still consuming events.
    Watching,
    /// End of stream was seen; the session finished cleanly.
    FinishedClean,
    /// A failure was seen; the session finished with `failure` recorded.
    FinishedFailed,
}

/// The state machine that consumes graph notifications and drives the
/// selector to its terminal state.
#[derive(Clone, Copy, Debug, PartialEq, Eq)]
pub struct TerminationWatcher {
    pub status: WatchStatus,
    pub failure: Option<AbxError>,
}

impl TerminationWatcher {
    /// A failure is recorded exactly while the session finished failed.
    pub open spec fn wf(self) -> bool {
        self.status == WatchStatus::FinishedFailed <==> self.failure is Some
    }

    /// A fresh watcher, still watching, with no failure.
    pub fn new() -> (w: TerminationWatcher)
        ensures
            w.status == WatchStatus::Watching,
            w.failure is None,
            w.wf(),
    {
        TerminationWatcher { status: WatchStatus::Watching, failure: None }
    }

    /// Whether the session has reached a terminal state.
    pub fn finished(&self) -> (r: bool)
        ensures
            r == (self.status != WatchStatus::Watching),
    {
        !(self.status == WatchStatus::Watching)
    }

    /// Consumes one notification. The first end-of-stream stops the graph
    /// and finishes the session cleanly; the first engine fault stops the
    /// graph and finishes it failed; a stream-discovery event links the
    /// source's first audio stream (a failure to link also stops the graph
    /// and finishes the session failed); everything else, and every event
    /// after a terminal one, is ignored.
    pub fn handle_event(&mut self, selector: &mut AudioSelector, event: GraphEvent)
        requires
            old(self).wf(),
            old(selector).wf(),
        ensures
            final(self).wf(),
            final(selector).wf(),
            old(self).status != WatchStatus::Watching ==> {
                &&& *final(self) == *old(self)
                &&& *final(selector) == *old(selector)
            },
            old(self).status == WatchStatus::Watching ==> {
                &&& (event == GraphEvent::EndOfStream ==> {
                    &&& final(self).status == WatchStatus::FinishedClean
                    &&& final(self).failure is None
                    &&& *final(selector) == old(selector).with_state(PlayState::Stopped)
                })
                &&& (event == GraphEvent::EngineFault ==> {
                    &&& final(self).status == WatchStatus::FinishedFailed
                    &&& final(self).failure == Some(AbxError::EngineError)
                    &&& *final(selector) == old(selector).with_state(PlayState::Stopped)
                })
                &&& (event == GraphEvent::Informational ==> {
                    &&& *final(self) == *old(self)
                    &&& *final(selector) == *old(selector)
                })
                &&& (event matches GraphEvent::StreamReady { source, kind } ==> {
                    &&& (source < old(selector).registry.count() ==> {
                        &&& *final(self) == *old(self)
                        &&& final(selector).registry == old(selector).registry
                        &&& final(selector).graph.structure_unchanged(old(selector).graph)
                        &&& final(selector).graph.transport_unchanged(old(selector).graph)
                        &&& {
                            let gate = old(selector).registry.gate_of(source as int);
                            &&& (kind != StreamKind::Audio
                                || old(selector).graph.mixer_inputs@[gate].linked ==> *final(
                                selector) == *old(selector))
                            &&& (kind == StreamKind::Audio
                                && !old(selector).graph.mixer_inputs@[gate].linked ==> final(
                                selector).graph.mixer_inputs@[gate].linked)
                        }
                    })
                    &&& (source >= old(selector).registry.count() ==> {
                        &&& final(self).status == WatchStatus::FinishedFailed
                        &&& final(self).failure == Some(AbxError::LinkFailure)
                        &&& *final(selector) == old(selector).with_state(PlayState::Stopped)
                    })
                })
            },
    {
        if !(self.status == WatchStatus::Watching) {
            return ;
        }
        match event {
            GraphEvent::EndOfStream => {
                let _ = selector.stop();
                self.status = WatchStatus::FinishedClean;
            },
            GraphEvent::EngineFault => {
                let _ = selector.stop();
                self.status = WatchStatus::FinishedFailed;
                self.failure = Some(AbxError::EngineError);
            },
            GraphEvent::StreamReady { source, kind } => {
                match selector.link_stream(source, kind) {
                    Ok(()) => (),
                    Err(e) => {
                        let _ = selector.stop();
                        self.status = WatchStatus::FinishedFailed;
                        self.failure = Some(e);
                    },
                }
            },
            GraphEvent::Informational => (),
        }
    }
}

} // verus!
