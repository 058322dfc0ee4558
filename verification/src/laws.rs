//! The general guarantees of the library, written down and proved.
//!
//! Each proof function here states a promise that relates several operations
//! or holds of every reachable state; its hypotheses are only the validity of
//! the values it speaks about.

use vstd::arithmetic::div_mod::{
    lemma_add_mod_noop, lemma_mod_add_multiples_vanish, lemma_small_mod,
};
use vstd::prelude::*;

use crate::graph::PlayState;
use crate::registry::next_index;
use crate::selector::AudioSelector;

verus! {

/// The selection index after taking `steps` steps of `next` from `selected`
/// over a registry of length `len`.
pub open spec fn iterate_next(selected: int, len: int, steps: nat) -> int
    decreases steps,
{
    if steps == 0 {
        selected
    } else {
        next_index(iterate_next(selected, len, (steps - 1) as nat), len)
    }
}

/// Over a registry of any length `len >= 1`, repeated `next` walks the
/// indices in a closed cycle: after `steps` steps from `selected` it stands
/// at `(selected + steps) % len`, so it visits `0, 1, ..., len - 1, 0, ...`.
pub proof fn lemma_next_visits_cycle(selected: int, len: int, steps: nat)
    requires
        0 <= selected < len,
    ensures
        iterate_next(selected, len, steps) == (selected + steps) % len,
    decreases steps,
{
    if steps == 0 {
        lemma_small_mod(selected as nat, len as nat);
    } else {
        lemma_next_visits_cycle(selected, len, (steps - 1) as nat);
        let before = (selected + steps - 1) % len;
        if len == 1 {
            assert(before == 0 && (before + 1) % len == 0 && (selected + steps) % len == 0);
        } else {
            lemma_small_mod(1nat, len as nat);
            lemma_add_mod_noop(selected + steps - 1, 1, len);
        }
    }
}

/// Calling `next` exactly `len` times returns the selection to where it
/// started: the cycle is closed.
pub proof fn lemma_next_full_cycle(selected: int, len: int)
    requires
        0 <= selected < len,
    ensures
        iterate_next(selected, len, len as nat) == selected,
{
    lemma_next_visits_cycle(selected, len, len as nat);
    lemma_mod_add_multiples_vanish(selected, len);
    lemma_small_mod(selected as nat, len as nat);
}

/// In every valid selector whose playback has made a source audible, exactly
/// one source is audible, and it is the selected one.
pub proof fn lemma_exactly_one_audible(s: AudioSelector)
    requires
        s.wf(),
        s.registry.active(s.graph),
    ensures
        forall|i: int|
            0 <= i < s.registry.count() ==> (#[trigger] s.registry.live(s.graph, i) <==> i
                == s.registry.selected),
{
}

/// In every valid selector, no two sources are ever audible at once. Each
/// operation is one atomic step under the callers' exclusive lock, so no
/// state with two open gates is observable between operations either.
pub proof fn lemma_never_two_audible(s: AudioSelector, i: int, j: int)
    requires
        s.wf(),
        0 <= i < s.registry.count(),
        0 <= j < s.registry.count(),
        i != j,
    ensures
        !(s.registry.live(s.graph, i) && s.registry.live(s.graph, j)),
{
    if s.registry.quiet(s.graph) {
        assert(!s.registry.live(s.graph, i));
    } else {
        assert(s.registry.active(s.graph));
        if i != s.registry.selected as int {
            assert(!s.registry.live(s.graph, i));
        } else {
            assert(!s.registry.live(s.graph, j));
        }
    }
}

/// Stopping is idempotent: a second `stop` finds the state the first one
/// left and changes nothing (and `stop` itself never fails).
pub proof fn lemma_stop_idempotent(s: AudioSelector)
    ensures
        s.with_state(PlayState::Stopped).with_state(PlayState::Stopped) == s.with_state(
            PlayState::Stopped,
        ),
{
}

} // verus!
