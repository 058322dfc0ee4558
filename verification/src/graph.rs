//! Model of the media graph owned by the external engine.
//!
//! The graph is an arena of stages (file readers and decoders) plus one
//! mixing stage with a bounded number of inputs; each mixer input carries a
//! mute gate and a flag saying whether a decoded stream has been linked to it
//! yet. The graph also carries the engine's playback state and the last
//! reported stream position and duration. The surrounding program mirrors
//! every change made here onto the real engine and feeds engine reports back
//! through `note_position` / `note_duration` / `link_ready`.

use vstd::prelude::*;

use crate::errors::AbxError;

verus! {

/// The engine's pipeline-wide playback state.
#[derive(Clone, Copy, Debug, PartialEq, Eq, Structural)]
pub enum PlayState {
    Stopped,
    Paused,
    Playing,
}

/// The media type a decoder discovered for one elementary stream.
#[derive(Clone, Copy, Debug, PartialEq, Eq, Structural)]
pub enum StreamKind {
    Audio,
    Video,
    Subtitle,
}

/// One processing stage in the graph arena.
#[derive(Clone, Debug)]
pub enum Stage {
    /// Reads bytes of the file at `path`.
    Reader { path: String },
    /// Turns a reader's bytes into elementary streams.
    Decoder,
}

/// A connection between two stages, by arena index.
#[derive(Clone, Copy, Debug, PartialEq, Eq, Structural)]
pub struct StageLink {
    pub from: usize,
    pub to: usize,
}

/// One input of the mixing stage: the mute gate of a single source.
#[derive(Clone, Copy, Debug, PartialEq, Eq, Structural)]
pub struct MixerInput {
    /// Whether this input's mute control holds it silent.
    pub muted: bool,
    /// Whether a decoded audio stream has been linked to this input yet.
    pub linked: bool,
    /// The decoder stage whose output is (to be) linked here.
    pub decoder: usize,
}

/// The whole graph: stage arena, mixer inputs, playback state and the last
/// known stream position and duration (in engine time units).
#[derive(Clone, Debug)]
pub struct MediaGraph {
    pub stages: Vec<Stage>,
    pub links: Vec<StageLink>,
    pub mixer_capacity: usize,
    pub mixer_inputs: Vec<MixerInput>,
    pub state: PlayState,
    pub position: Option<u64>,
    pub duration: Option<u64>,
}

impl MediaGraph {
    /// Every connection and every mixer input points at a stage that exists,
    /// and the mixer never exceeds its capacity.
    pub open spec fn wf(self) -> bool {
        &&& forall|i: int|
            0 <= i < self.links@.len() ==> (#[trigger] self.links@[i]).from < self.stages@.len()
                && self.links@[i].to < self.stages@.len()
        &&& forall|i: int|
            0 <= i < self.mixer_inputs@.len() ==> (#[trigger] self.mixer_inputs@[i]).decoder
                < self.stages@.len()
        &&& self.mixer_inputs@.len() <= self.mixer_capacity
    }

    /// Playback state, position and duration agree with `pre`'s.
    pub open spec fn transport_unchanged(self, pre: MediaGraph) -> bool {
        &&& self.state == pre.state
        &&& self.position == pre.position
        &&& self.duration == pre.duration
    }

    /// Stage arena, connections and mixer capacity agree with `pre`'s.
    pub open spec fn structure_unchanged(self, pre: MediaGraph) -> bool {
        &&& self.stages@ == pre.stages@
        &&& self.links@ == pre.links@
        &&& self.mixer_capacity == pre.mixer_capacity
    }

    /// The mixer inputs (gates and link flags) agree with `pre`'s.
    pub open spec fn gates_unchanged(self, pre: MediaGraph) -> bool {
        self.mixer_inputs@ == pre.mixer_inputs@
    }

    /// A fresh graph: no stages, no connections, an empty mixer of the given
    /// capacity, stopped, with no media information yet.
    pub fn new(mixer_capacity: usize) -> (g: MediaGraph)
        ensures
            g.wf(),
            g.stages@.len() == 0,
            g.links@.len() == 0,
            g.mixer_capacity == mixer_capacity,
            g.mixer_inputs@.len() == 0,
            g.state == PlayState::Stopped,
            g.position is None,
            g.duration is None,
    {
        MediaGraph {
            stages: Vec::new(),
            links: Vec::new(),
            mixer_capacity,
            mixer_inputs: Vec::new(),
            state: PlayState::Stopped,
            position: None,
            duration: None,
        }
    }

    /// Adds a stage to the arena and returns its index.
    pub fn add_stage(&mut self, stage: Stage) -> (id: usize)
        ensures
            id == old(self).stages@.len(),
            final(self).stages@ == old(self).stages@.push(stage),
            final(self).links@ == old(self).links@,
            final(self).mixer_inputs@ == old(self).mixer_inputs@,
            final(self).mixer_capacity == old(self).mixer_capacity,
            final(self).transport_unchanged(*old(self)),
            old(self).wf() ==> final(self).wf(),
    {
        let id = self.stages.len();
        self.stages.push(stage);
        id
    }

    /// Connects the output of stage `from` to the input of stage `to`.
    /// Fails when either index names no stage.
    pub fn connect(&mut self, from: usize, to: usize) -> (r: Result<(), AbxError>)
        ensures
            from < old(self).stages@.len() && to < old(self).stages@.len() ==> {
                &&& r is Ok
                &&& final(self).links@ == old(self).links@.push(StageLink { from, to })
                &&& final(self).stages@ == old(self).stages@
                &&& final(self).mixer_inputs@ == old(self).mixer_inputs@
                &&& final(self).mixer_capacity == old(self).mixer_capacity
                &&& final(self).transport_unchanged(*old(self))
                &&& old(self).wf() ==> final(self).wf()
            },
            !(from < old(self).stages@.len() && to < old(self).stages@.len()) ==> {
                &&& r == Err::<(), AbxError>(AbxError::ConfigurationError)
                &&& *final(self) == *old(self)
            },
    {
        if from < self.stages.len() && to < self.stages.len() {
            self.links.push(StageLink { from, to });
            Ok(())
        } else {
            Err(AbxError::ConfigurationError)
        }
    }

    /// Requests a fresh mixer input that stage `decoder` will feed once its
    /// stream is discovered. The new gate starts muted and unlinked. Fails
    /// with `ResourceExhausted` when the mixer is at capacity, and with
    /// `ConfigurationError` when `decoder` names no stage.
    pub fn alloc_mixer_input(&mut self, decoder: usize) -> (r: Result<usize, AbxError>)
        ensures
            decoder >= old(self).stages@.len() ==> {
                &&& r == Err::<usize, AbxError>(AbxError::ConfigurationError)
                &&& *final(self) == *old(self)
            },
            decoder < old(self).stages@.len() && old(self).mixer_inputs@.len()
                >= old(self).mixer_capacity ==> {
                &&& r == Err::<usize, AbxError>(AbxError::ResourceExhausted)
                &&& *final(self) == *old(self)
            },
            decoder < old(self).stages@.len() && old(self).mixer_inputs@.len()
                < old(self).mixer_capacity ==> {
                &&& r == Ok::<usize, AbxError>(old(self).mixer_inputs@.len() as usize)
                &&& final(self).mixer_inputs@ == old(self).mixer_inputs@.push(
                    MixerInput { muted: true, linked: false, decoder },
                )
                &&& final(self).structure_unchanged(*old(self))
                &&& final(self).transport_unchanged(*old(self))
                &&& old(self).wf() ==> final(self).wf()
            },
    {
        if decoder >= self.stages.len() {
            Err(AbxError::ConfigurationError)
        } else if self.mixer_inputs.len() >= self.mixer_capacity {
            Err(AbxError::ResourceExhausted)
        } else {
            let id = self.mixer_inputs.len();
            self.mixer_inputs.push(MixerInput { muted: true, linked: false, decoder });
            Ok(id)
        }
    }

    /// Opens or closes the mute gate of one mixer input. Fails with
    /// `EngineError` when `gate` names no input; nothing else changes either
    /// way.
    pub fn set_gate(&mut self, gate: usize, muted: bool) -> (r: Result<(), AbxError>)
        ensures
            gate < old(self).mixer_inputs@.len() ==> {
                &&& r is Ok
                &&& final(self).mixer_inputs@ == old(self).mixer_inputs@.update(
                    gate as int,
                    MixerInput { muted, ..old(self).mixer_inputs@[gate as int] },
                )
                &&& final(self).structure_unchanged(*old(self))
                &&& final(self).transport_unchanged(*old(self))
                &&& old(self).wf() ==> final(self).wf()
            },
            gate >= old(self).mixer_inputs@.len() ==> {
                &&& r == Err::<(), AbxError>(AbxError::EngineError)
                &&& *final(self) == *old(self)
            },
    {
        if gate < self.mixer_inputs.len() {
            let cur = self.mixer_inputs[gate];
            self.mixer_inputs[gate] = MixerInput { muted, linked: cur.linked, decoder: cur.decoder };
            Ok(())
        } else {
            Err(AbxError::EngineError)
        }
    }

    /// Reacts to a decoder having discovered one elementary stream for the
    /// mixer input `gate`: the first audio stream is linked, every further
    /// stream and every non-audio stream is ignored. Fails with `LinkFailure`
    /// when `gate` names no mixer input.
    pub fn link_ready(&mut self, gate: usize, kind: StreamKind) -> (r: Result<(), AbxError>)
        ensures
            gate >= old(self).mixer_inputs@.len() ==> {
                &&& r == Err::<(), AbxError>(AbxError::LinkFailure)
                &&& *final(self) == *old(self)
            },
            gate < old(self).mixer_inputs@.len() && (kind != StreamKind::Audio
                || old(self).mixer_inputs@[gate as int].linked) ==> {
                &&& r is Ok
                &&& *final(self) == *old(self)
            },
            gate < old(self).mixer_inputs@.len() && kind == StreamKind::Audio
                && !old(self).mixer_inputs@[gate as int].linked ==> {
                &&& r is Ok
                &&& final(self).mixer_inputs@ == old(self).mixer_inputs@.update(
                    gate as int,
                    MixerInput { linked: true, ..old(self).mixer_inputs@[gate as int] },
                )
                &&& final(self).structure_unchanged(*old(self))
                &&& final(self).transport_unchanged(*old(self))
                &&& old(self).wf() ==> final(self).wf()
            },
    {
        if gate >= self.mixer_inputs.len() {
            Err(AbxError::LinkFailure)
        } else {
            let cur = self.mixer_inputs[gate];
            if kind == StreamKind::Audio && !cur.linked {
                self.mixer_inputs[gate] = MixerInput {
                    muted: cur.muted,
                    linked: true,
                    decoder: cur.decoder,
                };
            }
            Ok(())
        }
    }

    /// Records a playback-state transition accepted by the engine.
    pub fn set_play_state(&mut self, state: PlayState)
        ensures
            *final(self) == (MediaGraph { state, ..*old(self) }),
            old(self).wf() ==> final(self).wf(),
    {
        self.state = state;
    }

    /// Records the stream position the engine last reported.
    pub fn note_position(&mut self, position: u64)
        ensures
            *final(self) == (MediaGraph { position: Some(position), ..*old(self) }),
            old(self).wf() ==> final(self).wf(),
    {
        self.position = Some(position);
    }

    /// Records the total duration the engine last reported.
    pub fn note_duration(&mut self, duration: u64)
        ensures
            *final(self) == (MediaGraph { duration: Some(duration), ..*old(self) }),
            old(self).wf() ==> final(self).wf(),
    {
        self.duration = Some(duration);
    }
}

} // verus!
