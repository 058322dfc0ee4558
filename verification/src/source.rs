//! Source builder: one decode branch per input file.
//!
//! `AudioSource::new` builds a reader and a decoder stage in the graph,
//! connects them, and reserves a mixer input that the decoder's audio stream
//! will be linked to once the engine discovers the stream type (the linking
//! itself arrives later, as a `StreamReady` event). The source starts muted,
//! so adding sources never causes audible overlap.

use vstd::prelude::*;

use crate::errors::AbxError;
use crate::graph::{MediaGraph, MixerInput, Stage, StageLink};

verus! {

/// One registered input file: the file path and non-owning handles into the
/// graph (its reader stage, its decoder stage, and its mixer-input gate, the
/// sole authorized mute control for this source).
#[derive(Clone, Debug)]
pub struct AudioSource {
    pub path: String,
    pub reader: usize,
    pub decoder: usize,
    pub gate: usize,
}

impl AudioSource {
    /// The handles a freshly built source must carry, given the graph as it
    /// stood before building: the two new stage slots and the new mixer input.
    pub open spec fn built_on(self, pre: MediaGraph, path: Seq<char>) -> bool {
        &&& self.path@ == path
        &&& self.reader == pre.stages@.len()
        &&& self.decoder == pre.stages@.len() + 1
        &&& self.gate == pre.mixer_inputs@.len()
    }

    /// Builds the decode branch for `path` in `graph`: a reader stage, a
    /// decoder stage, their connection, and a reserved, muted, not yet linked
    /// mixer input. Fails with `ConfigurationError` on an empty path and with
    /// `ResourceExhausted` when the mixer is at capacity; either failure
    /// leaves the graph unchanged.
    pub fn new(path: String, graph: &mut MediaGraph) -> (r: Result<AudioSource, AbxError>)
        ensures
            path@.len() == 0 ==> {
                &&& r == Err::<AudioSource, AbxError>(AbxError::ConfigurationError)
                &&& *final(graph) == *old(graph)
            },
            path@.len() > 0 && old(graph).mixer_inputs@.len() >= old(graph).mixer_capacity ==> {
                &&& r == Err::<AudioSource, AbxError>(AbxError::ResourceExhausted)
                &&& *final(graph) == *old(graph)
            },
            path@.len() > 0 && old(graph).mixer_inputs@.len() < old(graph).mixer_capacity ==> {
                &&& r matches Ok(src) && {
                    &&& src.built_on(*old(graph), path@)
                    &&& final(graph).stages@.len() == old(graph).stages@.len() + 2
                    &&& forall|i: int|
                        0 <= i < old(graph).stages@.len() ==> final(graph).stages@[i] == old(
                            graph,
                        ).stages@[i]
                    &&& final(graph).stages@[src.reader as int] matches Stage::Reader {
                        path: p,
                    } && p@ == path@
                    &&& final(graph).stages@[src.decoder as int] is Decoder
                    &&& final(graph).links@ == old(graph).links@.push(
                        (StageLink { from: src.reader, to: src.decoder }),
                    )
                    &&& final(graph).mixer_inputs@ == old(graph).mixer_inputs@.push(
                        (MixerInput { muted: true, linked: false, decoder: src.decoder }),
                    )
                    &&& final(graph).mixer_capacity == old(graph).mixer_capacity
                    &&& final(graph).transport_unchanged(*old(graph))
                    &&& old(graph).wf() ==> final(graph).wf()
                }
            },
    {
        if path.as_str().is_empty() {
            return Err(AbxError::ConfigurationError);
        }
        if graph.mixer_inputs.len() >= graph.mixer_capacity {
            return Err(AbxError::ResourceExhausted);
        }
        let stage_path = path.clone();
        let reader = graph.add_stage(Stage::Reader { path: stage_path });
        let decoder = graph.add_stage(Stage::Decoder);
        let connected = graph.connect(reader, decoder);
        proof {
            assert(connected is Ok);
        }
        let allocated = graph.alloc_mixer_input(decoder);
        match allocated {
            Ok(gate) => Ok(AudioSource { path, reader, decoder, gate }),
            Err(e) => Err(e),
        }
    }

    /// Closes this source's mute gate. Fails with `EngineError`, changing
    /// nothing, when the handle is stale for `graph`.
    pub fn mute(&self, graph: &mut MediaGraph) -> (r: Result<(), AbxError>)
        ensures
            self.gate < old(graph).mixer_inputs@.len() ==> {
                &&& r is Ok
                &&& final(graph).mixer_inputs@ == old(graph).mixer_inputs@.update(
                    self.gate as int,
                    (MixerInput { muted: true, ..old(graph).mixer_inputs@[self.gate as int] }),
                )
                &&& final(graph).structure_unchanged(*old(graph))
                &&& final(graph).transport_unchanged(*old(graph))
                &&& old(graph).wf() ==> final(graph).wf()
            },
            self.gate >= old(graph).mixer_inputs@.len() ==> {
                &&& r == Err::<(), AbxError>(AbxError::EngineError)
                &&& *final(graph) == *old(graph)
            },
    {
        graph.set_gate(self.gate, true)
    }

    /// Opens this source's mute gate. Fails with `EngineError`, changing
    /// nothing, when the handle is stale for `graph`.
    pub fn unmute(&self, graph: &mut MediaGraph) -> (r: Result<(), AbxError>)
        ensures
            self.gate < old(graph).mixer_inputs@.len() ==> {
                &&& r is Ok
                &&& final(graph).mixer_inputs@ == old(graph).mixer_inputs@.update(
                    self.gate as int,
                    (MixerInput { muted: false, ..old(graph).mixer_inputs@[self.gate as int] }),
                )
                &&& final(graph).structure_unchanged(*old(graph))
                &&& final(graph).transport_unchanged(*old(graph))
                &&& old(graph).wf() ==> final(graph).wf()
            },
            self.gate >= old(graph).mixer_inputs@.len() ==> {
                &&& r == Err::<(), AbxError>(AbxError::EngineError)
                &&& *final(graph) == *old(graph)
            },
    {
        graph.set_gate(self.gate, false)
    }
}

} // verus!
