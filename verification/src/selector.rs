//! Pipeline controller and facade: owns the shared media graph and the
//! source registry, and drives the playback lifecycle.
//!
//! Callers route every call through one owner (in a concurrent program: one
//! exclusive lock around the whole selector), so each method is one atomic
//! step; the selection index may additionally be snapshotted lock-free for
//! polling, which can observe a stale but never a torn value.

use vstd::arithmetic::div_mod::lemma_multiply_divide_lt;
use vstd::prelude::*;

use crate::errors::AbxError;
use crate::graph::{MediaGraph, MixerInput, PlayState, StreamKind};
use crate::registry::{next_index, SourceRegistry};
use crate::source::AudioSource;

verus! {

/// Mixer inputs available in a selector built by `new`.
pub const DEFAULT_MIXER_CAPACITY: usize = 64;

/// The playback state `toggle` moves to: it flips Playing and Paused and
/// leaves any other state alone.
pub open spec fn toggled_state(state: PlayState) -> PlayState {
    match state {
        PlayState::Playing => PlayState::Paused,
        PlayState::Paused => PlayState::Playing,
        PlayState::Stopped => PlayState::Stopped,
    }
}

/// The percentage `progress` reports for a known position and duration,
/// clamped into `[0, 100]`.
pub open spec fn progress_percent(position: u64, duration: u64) -> int
    recommends
        duration > 0,
{
    if position >= duration {
        100int
    } else {
        (position as int * 100) / (duration as int)
    }
}

/// The media graph together with the registry of its sources.
#[derive(Clone, Debug)]
pub struct AudioSelector {
    pub graph: MediaGraph,
    pub registry: SourceRegistry,
}

/// Validity does not depend on the playback state or the reported media
/// information: a selector whose registry, gates and graph structure agree
/// with a valid one is itself valid.
proof fn lemma_wf_same_gates(pre: AudioSelector, post: AudioSelector)
    requires
        pre.wf(),
        post.registry == pre.registry,
        post.graph.stages == pre.graph.stages,
        post.graph.links == pre.graph.links,
        post.graph.mixer_capacity == pre.graph.mixer_capacity,
        post.graph.mixer_inputs == pre.graph.mixer_inputs,
    ensures
        post.wf(),
{
    assert forall|i: int|
        0 <= i < post.graph.links@.len() implies (#[trigger] post.graph.links@[i]).from
        < post.graph.stages@.len() && post.graph.links@[i].to < post.graph.stages@.len() by {
        assert(post.graph.links@[i] == pre.graph.links@[i]);
    }
    assert forall|i: int|
        0 <= i < post.graph.mixer_inputs@.len() implies (#[trigger] post.graph.mixer_inputs@[i]).decoder
        < post.graph.stages@.len() by {
        assert(post.graph.mixer_inputs@[i] == pre.graph.mixer_inputs@[i]);
    }
    assert forall|i: int|
        0 <= i < post.registry.count() implies (#[trigger] post.registry.live(post.graph, i)
            <==> pre.registry.live(pre.graph, i)) by {
        assert(post.registry.gate_of(i) == pre.registry.gate_of(i));
    }
    if pre.registry.quiet(pre.graph) {
        assert forall|i: int|
            0 <= i < post.registry.count() implies !(#[trigger] post.registry.live(
            post.graph,
            i,
        )) by {
            assert(!pre.registry.live(pre.graph, i));
        }
    } else {
        assert(pre.registry.active(pre.graph));
        assert(post.registry.live(post.graph, post.registry.selected as int));
        assert forall|i: int|
            0 <= i < post.registry.count() && i != post.registry.selected implies !(
        #[trigger] post.registry.live(post.graph, i)) by {
            assert(!pre.registry.live(pre.graph, i));
        }
    }
}

impl AudioSelector {
    /// Validity of the whole selector: a well-formed graph, registry handles
    /// that name distinct mixer inputs, a selection inside the registry, and
    /// never more than one open gate (the selected one, if any).
    pub open spec fn wf(self) -> bool {
        &&& self.graph.wf()
        &&& self.registry.wf(self.graph)
        &&& self.registry.exclusive(self.graph)
    }

    /// A selector fresh from a constructor: no sources, no stages, stopped,
    /// nothing known about the stream yet.
    pub open spec fn fresh(self, mixer_capacity: int) -> bool {
        &&& self.registry.count() == 0
        &&& self.registry.selected == 0
        &&& self.graph.stages@.len() == 0
        &&& self.graph.links@.len() == 0
        &&& self.graph.mixer_inputs@.len() == 0
        &&& self.graph.mixer_capacity == mixer_capacity
        &&& self.graph.state == PlayState::Stopped
        &&& self.graph.position is None
        &&& self.graph.duration is None
    }

    /// This selector with only the playback state replaced.
    pub open spec fn with_state(self, state: PlayState) -> AudioSelector {
        AudioSelector {
            graph: MediaGraph { state, ..self.graph },
            registry: self.registry,
        }
    }

    /// Both position and duration are known and the duration is non-zero, so
    /// a percentage can be computed.
    pub open spec fn progress_ready(self) -> bool {
        &&& self.graph.position is Some
        &&& self.graph.duration is Some
        &&& self.graph.duration->Some_0 > 0
    }

    /// A selector whose graph has the given mixer capacity and nothing else.
    pub fn new_with_capacity(mixer_capacity: usize) -> (s: AudioSelector)
        ensures
            s.wf(),
            s.fresh(mixer_capacity as int),
    {
        AudioSelector {
            graph: MediaGraph::new(mixer_capacity),
            registry: SourceRegistry::new(),
        }
    }

    /// A selector with the default mixer capacity. Construction of the empty
    /// graph is always accepted.
    pub fn new() -> (r: Result<AudioSelector, AbxError>)
        ensures
            r matches Ok(s) && s.wf() && s.fresh(DEFAULT_MIXER_CAPACITY as int),
    {
        Ok(AudioSelector::new_with_capacity(DEFAULT_MIXER_CAPACITY))
    }

    /// Builds the decode branch for `path` and registers it as the next
    /// source, muted, with the selection unmoved. Fails with
    /// `ConfigurationError` on an empty path and with `ResourceExhausted`
    /// when the mixer has no further input; a failed build registers nothing.
    pub fn with_source(self, path: String) -> (r: Result<AudioSelector, AbxError>)
        requires
            self.wf(),
        ensures
            path@.len() == 0 ==> r == Err::<AudioSelector, AbxError>(AbxError::ConfigurationError),
            path@.len() > 0 && self.graph.mixer_inputs@.len() >= self.graph.mixer_capacity ==> r
                == Err::<AudioSelector, AbxError>(AbxError::ResourceExhausted),
            path@.len() > 0 && self.graph.mixer_inputs@.len() < self.graph.mixer_capacity ==> {
                &&& r matches Ok(s) && {
                    &&& s.wf()
                    &&& s.registry.count() == self.registry.count() + 1
                    &&& s.registry.selected == self.registry.selected
                    &&& forall|i: int|
                        0 <= i < self.registry.count() ==> s.registry.sources@[i]
                            == self.registry.sources@[i]
                    &&& s.registry.sources@[self.registry.count() as int].built_on(
                        self.graph,
                        path@,
                    )
                    &&& s.graph.mixer_inputs@ == self.graph.mixer_inputs@.push(
                        (MixerInput {
                            muted: true,
                            linked: false,
                            decoder: s.registry.sources@[self.registry.count() as int].decoder,
                        }),
                    )
                    &&& s.graph.stages@.len() == self.graph.stages@.len() + 2
                    &&& s.graph.mixer_capacity == self.graph.mixer_capacity
                    &&& s.graph.transport_unchanged(self.graph)
                    &&& (self.registry.quiet(self.graph) ==> s.registry.quiet(s.graph))
                    &&& (self.registry.active(self.graph) ==> s.registry.active(s.graph))
                }
            },
    {
        let mut s = self;
        let built = AudioSource::new(path, &mut s.graph);
        match built {
            Ok(src) => {
                s.registry.add(src);
                proof {
                    let pre = self;
                    let n = pre.registry.count() as int;
                    assert forall|i: int|
                        0 <= i < s.registry.count() implies #[trigger] s.registry.gate_of(i)
                        < s.graph.mixer_inputs@.len() by {
                        if i < n {
                            assert(s.registry.gate_of(i) == pre.registry.gate_of(i));
                        }
                    }
                    assert forall|i: int, j: int|
                        0 <= i < s.registry.count() && 0 <= j < s.registry.count() && i
                            != j implies #[trigger] s.registry.gate_of(i)
                        != #[trigger] s.registry.gate_of(j) by {
                        if i < n && j < n {
                            assert(s.registry.gate_of(i) == pre.registry.gate_of(i));
                            assert(s.registry.gate_of(j) == pre.registry.gate_of(j));
                        } else if i < n {
                            assert(pre.registry.gate_of(i) < pre.graph.mixer_inputs@.len());
                        } else if j < n {
                            assert(pre.registry.gate_of(j) < pre.graph.mixer_inputs@.len());
                        }
                    }
                    assert forall|i: int|
                        0 <= i < n implies (s.registry.live(s.graph, i) <==> pre.registry.live(
                        pre.graph,
                        i,
                    )) by {
                        assert(s.registry.gate_of(i) == pre.registry.gate_of(i));
                        assert(pre.registry.gate_of(i) < pre.graph.mixer_inputs@.len());
                    }
                    assert(!s.registry.live(s.graph, n));
                    if pre.registry.quiet(pre.graph) {
                        assert forall|i: int|
                            0 <= i < s.registry.count() implies !(#[trigger] s.registry.live(
                            s.graph,
                            i,
                        )) by {
                            if i < n {
                                assert(!pre.registry.live(pre.graph, i));
                            }
                        }
                    }
                    if pre.registry.active(pre.graph) {
                        assert(s.registry.live(s.graph, s.registry.selected as int));
                        assert forall|i: int|
                            0 <= i < s.registry.count() && i
                                != s.registry.selected implies !(#[trigger] s.registry.live(
                            s.graph,
                            i,
                        )) by {
                            if i < n {
                                assert(!pre.registry.live(pre.graph, i));
                            }
                        }
                    }
                }
                Ok(s)
            },
            Err(e) => Err(e),
        }
    }

    /// Starts the watch-and-play phase: the graph goes to Playing and, when
    /// it was stopped, the selected source is made audible. The surrounding
    /// program wires the engine's notification bus to a `TerminationWatcher`
    /// when it calls this.
    pub fn run(self) -> (r: Result<AudioSelector, AbxError>)
        requires
            self.wf(),
        ensures
            r matches Ok(s) && {
                &&& s.wf()
                &&& s.graph.state == PlayState::Playing
                &&& s.registry.sources@ == self.registry.sources@
                &&& s.registry.selected == self.registry.selected
                &&& s.graph.structure_unchanged(self.graph)
                &&& s.graph.position == self.graph.position
                &&& s.graph.duration == self.graph.duration
                &&& (self.graph.state != PlayState::Stopped || self.registry.count() == 0
                    ==> s.graph.gates_unchanged(self.graph))
                &&& (self.graph.state == PlayState::Stopped && self.registry.count() > 0 ==> {
                    &&& s.graph.mixer_inputs@ == self.graph.mixer_inputs@.update(
                        self.registry.gate_of(self.registry.selected as int),
                        (MixerInput {
                            muted: false,
                            ..self.graph.mixer_inputs@[self.registry.gate_of(
                                self.registry.selected as int,
                            )]
                        }),
                    )
                    &&& s.registry.active(s.graph)
                })
            },
    {
        let mut s = self;
        match s.play() {
            Ok(()) => Ok(s),
            Err(e) => Err(e),
        }
    }

    /// Transitions the graph to Playing. On the transition out of Stopped it
    /// also opens the selected source's gate, establishing that exactly one
    /// source is audible from the start of playback.
    pub fn play(&mut self) -> (r: Result<(), AbxError>)
        requires
            old(self).wf(),
        ensures
            r is Ok,
            final(self).wf(),
            final(self).graph.state == PlayState::Playing,
            final(self).registry == old(self).registry,
            final(self).graph.structure_unchanged(old(self).graph),
            final(self).graph.position == old(self).graph.position,
            final(self).graph.duration == old(self).graph.duration,
            old(self).graph.state != PlayState::Stopped || old(self).registry.count() == 0
                ==> *final(self) == old(self).with_state(PlayState::Playing),
            old(self).graph.state == PlayState::Stopped && old(self).registry.count() > 0 ==> {
                &&& final(self).graph.mixer_inputs@ == old(self).graph.mixer_inputs@.update(
                    old(self).registry.gate_of(old(self).registry.selected as int),
                    (MixerInput {
                        muted: false,
                        ..old(self).graph.mixer_inputs@[old(self).registry.gate_of(
                            old(self).registry.selected as int,
                        )]
                    }),
                )
                &&& final(self).registry.active(final(self).graph)
            },
    {
        let was_stopped = self.graph.state == PlayState::Stopped;
        self.graph.set_play_state(PlayState::Playing);
        if was_stopped && self.registry.sources.len() > 0 {
            let gate = self.registry.sources[self.registry.selected].gate;
            let opened = self.graph.set_gate(gate, false);
            proof {
                let pre = *old(self);
                assert(pre.registry.gate_of(pre.registry.selected as int)
                    < pre.graph.mixer_inputs@.len());
                assert(gate as int == pre.registry.gate_of(pre.registry.selected as int));
                assert(opened is Ok);
                assert forall|i: int|
                    0 <= i < self.registry.count() && i
                        != self.registry.selected implies !(#[trigger] self.registry.live(
                    self.graph,
                    i,
                )) by {
                    assert(pre.registry.gate_of(i) != pre.registry.gate_of(
                        pre.registry.selected as int,
                    ));
                    assert(!pre.registry.live(pre.graph, i));
                }
                assert(self.registry.live(self.graph, self.registry.selected as int));
                assert forall|i: int|
                    0 <= i < self.registry.count() implies #[trigger] self.registry.gate_of(i)
                    < self.graph.mixer_inputs@.len() by {
                    assert(pre.registry.gate_of(i) < pre.graph.mixer_inputs@.len());
                }
            }
        } else {
            proof {
                lemma_wf_same_gates(*old(self), *self);
            }
        }
        Ok(())
    }

    /// Transitions the graph to Paused; nothing else changes.
    pub fn pause(&mut self) -> (r: Result<(), AbxError>)
        requires
            old(self).wf(),
        ensures
            r is Ok,
            *final(self) == old(self).with_state(PlayState::Paused),
            final(self).wf(),
    {
        self.graph.set_play_state(PlayState::Paused);
        proof {
            lemma_wf_same_gates(*old(self), *self);
        }
        Ok(())
    }

    /// Drives the graph fully to Stopped, from any state; nothing else
    /// changes, so a second call finds the same terminal state and also
    /// reports success.
    pub fn stop(&mut self) -> (r: Result<(), AbxError>)
        requires
            old(self).wf(),
        ensures
            r is Ok,
            *final(self) == old(self).with_state(PlayState::Stopped),
            final(self).wf(),
    {
        self.graph.set_play_state(PlayState::Stopped);
        proof {
            lemma_wf_same_gates(*old(self), *self);
        }
        Ok(())
    }

    /// Flips Playing and Paused; in any other state it is a no-op. Never an
    /// error.
    pub fn toggle(&mut self) -> (r: Result<(), AbxError>)
        requires
            old(self).wf(),
        ensures
            r is Ok,
            *final(self) == old(self).with_state(toggled_state(old(self).graph.state)),
            final(self).wf(),
    {
        match self.graph.state {
            PlayState::Playing => self.pause(),
            PlayState::Paused => self.play(),
            PlayState::Stopped => Ok(()),
        }
    }

    /// How far playback has come, as a whole percentage in `[0, 100]`
    /// (position over duration, clamped). Fails with `NotReady` until the
    /// engine has reported both a position and a non-zero duration.
    pub fn progress(&self) -> (r: Result<u64, AbxError>)
        ensures
            self.progress_ready() ==> (r matches Ok(p) && p == progress_percent(
                self.graph.position->Some_0,
                self.graph.duration->Some_0,
            ) && p <= 100),
            !self.progress_ready() ==> r == Err::<u64, AbxError>(AbxError::NotReady),
    {
        match (self.graph.position, self.graph.duration) {
            (Some(position), Some(duration)) => {
                if duration == 0 {
                    Err(AbxError::NotReady)
                } else if position >= duration {
                    Ok(100)
                } else {
                    let percent = ((position as u128) * 100) / (duration as u128);
                    proof {
                        lemma_multiply_divide_lt(position as int * 100, duration as int, 100);
                    }
                    Ok(percent as u64)
                }
            },
            _ => Err(AbxError::NotReady),
        }
    }

    /// Routes the mix to source `index`. Fails with `IndexOutOfRange`,
    /// changing nothing, when `index` is at or past the number of sources.
    pub fn select_source(&mut self, index: usize) -> (r: Result<(), AbxError>)
        requires
            old(self).wf(),
        ensures
            final(self).wf(),
            index < old(self).registry.count() ==> {
                &&& r is Ok
                &&& final(self).registry.sources@ == old(self).registry.sources@
                &&& final(self).registry.selected == index
                &&& final(self).graph.mixer_inputs@ == old(self).registry.gates_after_select(
                    old(self).graph.mixer_inputs@,
                    index as int,
                )
                &&& final(self).graph.structure_unchanged(old(self).graph)
                &&& final(self).graph.transport_unchanged(old(self).graph)
                &&& final(self).registry.active(final(self).graph)
            },
            index >= old(self).registry.count() ==> {
                &&& r == Err::<(), AbxError>(AbxError::IndexOutOfRange)
                &&& *final(self) == *old(self)
            },
    {
        self.registry.select(&mut self.graph, index)
    }

    /// Moves the selection one step through the closed cycle over all
    /// sources, wrapping from the last to the first. Fails with
    /// `EmptyRegistry`, changing nothing, while no source is registered.
    pub fn next_source(&mut self) -> (r: Result<(), AbxError>)
        requires
            old(self).wf(),
        ensures
            final(self).wf(),
            old(self).registry.count() == 0 ==> {
                &&& r == Err::<(), AbxError>(AbxError::EmptyRegistry)
                &&& *final(self) == *old(self)
            },
            old(self).registry.count() > 0 ==> {
                &&& r is Ok
                &&& final(self).registry.sources@ == old(self).registry.sources@
                &&& final(self).registry.selected == next_index(
                    old(self).registry.selected as int,
                    old(self).registry.count() as int,
                )
                &&& final(self).graph.mixer_inputs@ == old(self).registry.gates_after_select(
                    old(self).graph.mixer_inputs@,
                    next_index(
                        old(self).registry.selected as int,
                        old(self).registry.count() as int,
                    ),
                )
                &&& final(self).graph.structure_unchanged(old(self).graph)
                &&& final(self).graph.transport_unchanged(old(self).graph)
                &&& final(self).registry.active(final(self).graph)
            },
    {
        self.registry.next(&mut self.graph)
    }

    /// Reacts to the engine having discovered an elementary stream of source
    /// `index`: the source's first audio stream is linked to its reserved
    /// mixer input, anything else is ignored. Fails with `LinkFailure`,
    /// changing nothing, when `index` names no source.
    pub fn link_stream(&mut self, index: usize, kind: StreamKind) -> (r: Result<(), AbxError>)
        requires
            old(self).wf(),
        ensures
            final(self).wf(),
            index >= old(self).registry.count() ==> {
                &&& r == Err::<(), AbxError>(AbxError::LinkFailure)
                &&& *final(self) == *old(self)
            },
            index < old(self).registry.count() ==> {
                &&& r is Ok
                &&& final(self).registry == old(self).registry
                &&& final(self).graph.structure_unchanged(old(self).graph)
                &&& final(self).graph.transport_unchanged(old(self).graph)
                &&& (kind != StreamKind::Audio || old(self).graph.mixer_inputs@[old(
                    self,
                ).registry.gate_of(index as int)].linked ==> *final(self) == *old(self))
                &&& (kind == StreamKind::Audio && !old(self).graph.mixer_inputs@[old(
                    self,
                ).registry.gate_of(index as int)].linked ==> final(self).graph.mixer_inputs@ == old(
                    self,
                ).graph.mixer_inputs@.update(
                    old(self).registry.gate_of(index as int),
                    (MixerInput {
                        linked: true,
                        ..old(self).graph.mixer_inputs@[old(self).registry.gate_of(index as int)]
                    }),
                ))
            },
    {
        if index >= self.registry.sources.len() {
            return Err(AbxError::LinkFailure);
        }
        let gate = self.registry.sources[index].gate;
        let linked = self.graph.link_ready(gate, kind);
        proof {
            let pre = *old(self);
            assert(pre.registry.gate_of(index as int) < pre.graph.mixer_inputs@.len());
            assert(linked is Ok);
            assert forall|i: int|
                0 <= i < self.registry.count() implies (#[trigger] self.registry.live(
                self.graph,
                i,
            ) <==> pre.registry.live(pre.graph, i)) by {
                assert(pre.registry.gate_of(i) < pre.graph.mixer_inputs@.len());
            }
            assert forall|i: int|
                0 <= i < self.registry.count() implies #[trigger] self.registry.gate_of(i)
                < self.graph.mixer_inputs@.len() by {
                assert(pre.registry.gate_of(i) < pre.graph.mixer_inputs@.len());
            }
            if pre.registry.active(pre.graph) {
                assert(self.registry.live(self.graph, self.registry.selected as int));
            }
        }
        Ok(())
    }

    /// Records the stream position the engine last reported.
    pub fn note_position(&mut self, position: u64)
        requires
            old(self).wf(),
        ensures
            final(self).wf(),
            *final(self) == (AudioSelector {
                graph: MediaGraph { position: Some(position), ..old(self).graph },
                registry: old(self).registry,
            }),
    {
        self.graph.note_position(position);
        proof {
            lemma_wf_same_gates(*old(self), *self);
        }
    }

    /// Records the total duration the engine last reported.
    pub fn note_duration(&mut self, duration: u64)
        requires
            old(self).wf(),
        ensures
            final(self).wf(),
            *final(self) == (AudioSelector {
                graph: MediaGraph { duration: Some(duration), ..old(self).graph },
                registry: old(self).registry,
            }),
    {
        self.graph.note_duration(duration);
        proof {
            lemma_wf_same_gates(*old(self), *self);
        }
    }

    /// Number of registered sources.
    pub fn source_count(&self) -> (n: usize)
        ensures
            n == self.registry.count(),
    {
        self.registry.sources.len()
    }

    /// Snapshot of the selection index.
    pub fn selected_index(&self) -> (i: usize)
        ensures
            i == self.registry.selected,
    {
        self.registry.selected
    }

    /// The graph's playback state.
    pub fn current_state(&self) -> (s: PlayState)
        ensures
            s == self.graph.state,
    {
        self.graph.state
    }

    /// Whether source `index`'s gate is open (the source sounds in the mix).
    /// Fails with `IndexOutOfRange` when `index` names no source.
    pub fn source_audible(&self, index: usize) -> (r: Result<bool, AbxError>)
        requires
            self.wf(),
        ensures
            index < self.registry.count() ==> r == Ok::<bool, AbxError>(
                self.registry.live(self.graph, index as int),
            ),
            index >= self.registry.count() ==> r == Err::<bool, AbxError>(
                AbxError::IndexOutOfRange,
            ),
    {
        if index < self.registry.sources.len() {
            let gate = self.registry.sources[index].gate;
            proof {
                assert(self.registry.gate_of(index as int) < self.graph.mixer_inputs@.len());
            }
            Ok(!self.graph.mixer_inputs[gate].muted)
        } else {
            Err(AbxError::IndexOutOfRange)
        }
    }

    /// Whether source `index`'s decoded audio stream has been linked to its
    /// mixer input yet. Fails with `IndexOutOfRange` when `index` names no
    /// source.
    pub fn source_linked(&self, index: usize) -> (r: Result<bool, AbxError>)
        requires
            self.wf(),
        ensures
            index < self.registry.count() ==> r == Ok::<bool, AbxError>(
                self.graph.mixer_inputs@[self.registry.gate_of(index as int)].linked,
            ),
            index >= self.registry.count() ==> r == Err::<bool, AbxError>(
                AbxError::IndexOutOfRange,
            ),
    {
        if index < self.registry.sources.len() {
            let gate = self.registry.sources[index].gate;
            proof {
                assert(self.registry.gate_of(index as int) < self.graph.mixer_inputs@.len());
            }
            Ok(self.graph.mixer_inputs[gate].linked)
        } else {
            Err(AbxError::IndexOutOfRange)
        }
    }

    /// The file path source `index` was built from, or `None` when `index`
    /// names no source.
    pub fn source_path(&self, index: usize) -> (r: Option<&String>)
        ensures
            index < self.registry.count() ==> (r matches Some(p) && p
                == self.registry.sources@[index as int].path),
            index >= self.registry.count() ==> r is None,
    {
        if index < self.registry.sources.len() {
            Some(&self.registry.sources[index].path)
        } else {
            None
        }
    }
}

} // verus!
