//! Source registry: the ordered list of built sources and the selection.
//!
//! The registry owns the mute/unmute discipline: between operations a
//! non-empty registry is either quiet (every gate closed, as before playback
//! starts or after a degraded `select`) or active (exactly one gate open, the
//! one of the selected source). A `select` that manages to close the old gate
//! but not to open the new one leaves the registry quiet rather than ever
//! letting two sources sound at once; the caller sees the error and may
//! retry. Callers serialize all mutation under one exclusive lock, so each
//! operation here is one atomic step of that protocol.

use vstd::prelude::*;

use crate::errors::AbxError;
use crate::graph::{MediaGraph, MixerInput};
use crate::source::AudioSource;

verus! {

/// Index of the source `next` moves to: one step through the closed cycle
/// over the live length.
pub open spec fn next_index(selected: int, len: int) -> int
    recommends
        len > 0,
{
    (selected + 1) % len
}

/// The ordered sources (insertion order is the stable index) and the
/// selection index.
#[derive(Clone, Debug)]
pub struct SourceRegistry {
    pub sources: Vec<AudioSource>,
    pub selected: usize,
}

impl SourceRegistry {
    /// Number of registered sources.
    pub open spec fn count(self) -> nat {
        self.sources@.len()
    }

    /// The mixer-input handle of source `i`.
    pub open spec fn gate_of(self, i: int) -> int {
        self.sources@[i].gate as int
    }

    /// Every source's gate handle names a mixer input of `g`, and no two
    /// sources share a gate.
    pub open spec fn gates_wf(self, g: MediaGraph) -> bool {
        &&& forall|i: int| 0 <= i < self.count() ==> #[trigger] self.gate_of(i) < g.mixer_inputs@.len()
        &&& forall|i: int, j: int|
            0 <= i < self.count() && 0 <= j < self.count() && i != j ==> #[trigger] self.gate_of(i)
                != #[trigger] self.gate_of(j)
    }

    /// The selection index stays inside the registry: `0` while empty,
    /// otherwise below the length.
    pub open spec fn sel_wf(self) -> bool {
        if self.count() == 0 {
            self.selected == 0
        } else {
            self.selected < self.count()
        }
    }

    /// Source `i`'s gate is open, i.e. the source sounds in the mix.
    pub open spec fn live(self, g: MediaGraph, i: int) -> bool {
        !g.mixer_inputs@[self.gate_of(i)].muted
    }

    /// Every source is silenced (before playback starts, or degraded).
    pub open spec fn quiet(self, g: MediaGraph) -> bool {
        forall|i: int| 0 <= i < self.count() ==> !(#[trigger] self.live(g, i))
    }

    /// Exactly one source sounds: the selected one.
    pub open spec fn active(self, g: MediaGraph) -> bool {
        &&& self.count() > 0
        &&& self.live(g, self.selected as int)
        &&& forall|i: int|
            0 <= i < self.count() && i != self.selected ==> !(#[trigger] self.live(g, i))
    }

    /// The mute invariant observable between operations: never two sources
    /// sounding at once.
    pub open spec fn exclusive(self, g: MediaGraph) -> bool {
        self.quiet(g) || self.active(g)
    }

    /// Handles and selection are well formed for graph `g`.
    pub open spec fn wf(self, g: MediaGraph) -> bool {
        self.gates_wf(g) && self.sel_wf()
    }

    /// The mixer inputs after a successful `select(index)`: the previously
    /// selected gate closed (when there was one), then the target gate opened.
    pub open spec fn gates_after_select(self, pre: Seq<MixerInput>, index: int) -> Seq<MixerInput>
        recommends
            0 <= index < self.count(),
    {
        let closed = if self.selected < self.count() {
            pre.update(
                self.gate_of(self.selected as int),
                (MixerInput { muted: true, ..pre[self.gate_of(self.selected as int)] }),
            )
        } else {
            pre
        };
        closed.update(
            self.gate_of(index),
            (MixerInput { muted: false, ..closed[self.gate_of(index)] }),
        )
    }

    /// An empty registry with selection `0`.
    pub fn new() -> (r: SourceRegistry)
        ensures
            r.count() == 0,
            r.selected == 0,
            r.sel_wf(),
    {
        SourceRegistry { sources: Vec::new(), selected: 0 }
    }

    /// Appends a source; the selection never moves.
    pub fn add(&mut self, source: AudioSource)
        ensures
            final(self).sources@ == old(self).sources@.push(source),
            final(self).selected == old(self).selected,
    {
        self.sources.push(source);
    }

    /// Routes the mix to source `index`: under the caller's lock, closes the
    /// selected source's gate, opens source `index`'s gate, and records
    /// `index` as the selection. Fails with
    /// `IndexOutOfRange`, changing nothing, when `index` is at or past the
    /// length. When closing the old gate fails, nothing has changed; when
    /// opening the new gate fails after the old one closed, the registry is
    /// left quiet (zero open gates, selection unchanged) and the error is
    /// surfaced so the caller may retry.
    pub fn select(&mut self, graph: &mut MediaGraph, index: usize) -> (r: Result<(), AbxError>)
        ensures
            index >= old(self).count() ==> {
                &&& r == Err::<(), AbxError>(AbxError::IndexOutOfRange)
                &&& *final(self) == *old(self)
                &&& *final(graph) == *old(graph)
            },
            index < old(self).count() && old(self).selected < old(self).count() && old(self).gate_of(
                old(self).selected as int,
            ) >= old(graph).mixer_inputs@.len() ==> {
                &&& r == Err::<(), AbxError>(AbxError::EngineError)
                &&& *final(self) == *old(self)
                &&& *final(graph) == *old(graph)
            },
            index < old(self).count() && (old(self).selected >= old(self).count() || old(
                self,
            ).gate_of(old(self).selected as int) < old(graph).mixer_inputs@.len()) && old(
                self,
            ).gate_of(index as int) >= old(graph).mixer_inputs@.len() ==> {
                &&& r == Err::<(), AbxError>(AbxError::EngineError)
                &&& *final(self) == *old(self)
                &&& final(graph).mixer_inputs@ == (if old(self).selected < old(self).count() {
                    old(graph).mixer_inputs@.update(
                        old(self).gate_of(old(self).selected as int),
                        (MixerInput {
                            muted: true,
                            ..old(graph).mixer_inputs@[old(self).gate_of(
                                old(self).selected as int,
                            )]
                        }),
                    )
                } else {
                    old(graph).mixer_inputs@
                })
                &&& final(graph).structure_unchanged(*old(graph))
                &&& final(graph).transport_unchanged(*old(graph))
            },
            index < old(self).count() && (old(self).selected >= old(self).count() || old(
                self,
            ).gate_of(old(self).selected as int) < old(graph).mixer_inputs@.len()) && old(
                self,
            ).gate_of(index as int) < old(graph).mixer_inputs@.len() ==> {
                &&& r is Ok
                &&& final(self).sources@ == old(self).sources@
                &&& final(self).selected == index
                &&& final(graph).mixer_inputs@ == old(self).gates_after_select(
                    old(graph).mixer_inputs@,
                    index as int,
                )
                &&& final(graph).structure_unchanged(*old(graph))
                &&& final(graph).transport_unchanged(*old(graph))
            },
            old(self).wf(*old(graph)) && old(graph).wf() ==> {
                &&& final(self).wf(*final(graph))
                &&& final(graph).wf()
                &&& (r is Ok <==> index < old(self).count())
                &&& (old(self).exclusive(*old(graph)) && r is Ok ==> final(self).active(
                    *final(graph),
                ))
                &&& (old(self).exclusive(*old(graph)) ==> final(self).exclusive(*final(graph)))
            },
    {
        if index >= self.sources.len() {
            return Err(AbxError::IndexOutOfRange);
        }
        if self.selected < self.sources.len() {
            let current_gate = self.sources[self.selected].gate;
            match graph.set_gate(current_gate, true) {
                Ok(()) => (),
                Err(e) => {
                    return Err(e);
                },
            }
        }
        let target_gate = self.sources[index].gate;
        match graph.set_gate(target_gate, false) {
            Ok(()) => (),
            Err(e) => {
                return Err(e);
            },
        }
        self.selected = index;
        proof {
            if old(self).wf(*old(graph)) && old(graph).wf() {
                let pre_r = *old(self);
                let pre_g = *old(graph);
                assert forall|i: int|
                    0 <= i < self.count() implies #[trigger] self.gate_of(i)
                    < graph.mixer_inputs@.len() by {
                    assert(self.gate_of(i) == pre_r.gate_of(i));
                }
                assert forall|i: int, j: int|
                    0 <= i < self.count() && 0 <= j < self.count() && i != j implies #[trigger] self.gate_of(
                    i,
                ) != #[trigger] self.gate_of(j) by {
                    assert(self.gate_of(i) == pre_r.gate_of(i));
                    assert(self.gate_of(j) == pre_r.gate_of(j));
                }
                if pre_r.exclusive(pre_g) {
                    assert forall|i: int|
                        0 <= i < self.count() && i != self.selected implies !(self.live(
                        *graph,
                        i,
                    )) by {
                        assert(pre_r.gate_of(i) != pre_r.gate_of(index as int));
                        if i == pre_r.selected as int {
                            assert(graph.mixer_inputs@[pre_r.gate_of(i)].muted);
                        } else {
                            assert(pre_r.gate_of(i) != pre_r.gate_of(pre_r.selected as int));
                            assert(!pre_r.live(pre_g, i));
                            assert(graph.mixer_inputs@[pre_r.gate_of(i)]
                                == pre_g.mixer_inputs@[pre_r.gate_of(i)]);
                        }
                    }
                    assert(self.live(*graph, self.selected as int));
                }
            }
        }
        Ok(())
    }

    /// Moves the selection one step through the closed cycle: from the last
    /// source it wraps to the first. Fails with `EmptyRegistry`, changing
    /// nothing, on a registry without sources.
    pub fn next(&mut self, graph: &mut MediaGraph) -> (r: Result<(), AbxError>)
        requires
            old(self).sel_wf(),
        ensures
            old(self).count() == 0 ==> {
                &&& r == Err::<(), AbxError>(AbxError::EmptyRegistry)
                &&& *final(self) == *old(self)
                &&& *final(graph) == *old(graph)
            },
            old(self).count() > 0 && old(self).gates_wf(*old(graph)) ==> {
                &&& r is Ok
                &&& final(self).sources@ == old(self).sources@
                &&& final(self).selected == next_index(
                    old(self).selected as int,
                    old(self).count() as int,
                )
                &&& final(graph).mixer_inputs@ == old(self).gates_after_select(
                    old(graph).mixer_inputs@,
                    next_index(old(self).selected as int, old(self).count() as int),
                )
                &&& final(graph).structure_unchanged(*old(graph))
                &&& final(graph).transport_unchanged(*old(graph))
                &&& final(self).sel_wf()
                &&& (old(graph).wf() ==> final(graph).wf() && final(self).wf(*final(graph)))
                &&& (old(graph).wf() && old(self).exclusive(*old(graph)) ==> final(self).active(
                    *final(graph),
                ))
            },
    {
        let len = self.sources.len();
        if len == 0 {
            return Err(AbxError::EmptyRegistry);
        }
        let target = (self.selected + 1) % len;
        self.select(graph, target)
    }
}

} // verus!
