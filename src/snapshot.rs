//! Histories of states: a sequence of full states, or a sequence of deltas with the latest
//! state kept at hand, and the conversions between the two.
pub mod clock;
pub mod delta;
pub mod full;
pub mod order;

use vstd::prelude::*;
use crate::algebra::DeltaOps;

verus! {

/// The state that the `i`-th state of a history follows: the one before it, or `init`
/// for the first.
pub open spec fn prev_state<V>(init: V, states: Seq<V>, i: int) -> V {
    if i == 0 {
        init
    } else {
        states[i - 1]
    }
}

/// `deltas` is a compaction of `states`: each delta is the one that `delta` computes from
/// the state before (the initial value for the first) to its own state.
pub open spec fn compacts<T: DeltaOps>(states: Seq<T::V>, deltas: Seq<T::Delta>) -> bool {
    &&& deltas.len() == states.len()
    &&& forall|i: int|
        0 <= i < states.len() ==> #[trigger] T::is_delta(
            prev_state(T::initial_model(), states, i),
            states[i],
            deltas[i],
        )
}

/// The states that applying `deltas` one after the other to the initial value goes
/// through, or `None` where one of them does not apply.
pub open spec fn replay<T: DeltaOps>(deltas: Seq<T::Delta>) -> Option<Seq<T::V>>
    decreases deltas.len(),
{
    if deltas.len() == 0 {
        Some(Seq::empty())
    } else {
        match replay::<T>(deltas.drop_last()) {
            None => None,
            Some(states) => match T::patched(
                prev_state(T::initial_model(), states, states.len() as int),
                deltas.last(),
            ) {
                None => None,
                Some(x) => Some(states.push(x)),
            },
        }
    }
}

/// A replay yields one state per delta.
pub proof fn lemma_replay_len<T: DeltaOps>(deltas: Seq<T::Delta>)
    ensures
        replay::<T>(deltas) matches Some(states) ==> states.len() == deltas.len(),
    decreases deltas.len(),
{
    if deltas.len() > 0 {
        lemma_replay_len::<T>(deltas.drop_last());
    }
}

/// A replay that fails on a prefix fails on the whole.
pub proof fn lemma_replay_prefix_fails<T: DeltaOps>(deltas: Seq<T::Delta>, n: int)
    requires
        0 <= n <= deltas.len(),
        replay::<T>(deltas.take(n)) is None,
    ensures
        replay::<T>(deltas) is None,
    decreases deltas.len() - n,
{
    if n < deltas.len() {
        assert(deltas.take(n + 1).drop_last() =~= deltas.take(n));
        lemma_replay_prefix_fails::<T>(deltas, n + 1);
    } else {
        assert(deltas.take(n) =~= deltas);
    }
}

} // verus!
