//! The laws of the algebra and of histories, over the models that the operations'
//! contracts speak of.
use vstd::prelude::*;
use crate::algebra::DeltaOps;
use crate::collections::{is_entry_delta, key_among, KeyedMap, MapDelta};
use crate::option::OptionDelta;
use crate::snapshot::{compacts, prev_state, replay};
use crate::vec::{min_len, VecDelta};

verus! {

/// Round trip: the delta from `a` to `b` takes `a` to `b`.
pub proof fn law_round_trip<T: DeltaOps>(a: T::V, b: T::V, d: T::Delta)
    requires
        T::is_delta(a, b, d),
    ensures
        T::patched(a, d) == Some(b),
{
    T::lemma_round_trip(a, b, d);
}

/// Identity: the delta from a value to itself is the canonical unchanged delta, and
/// applying it gives the value back.
pub proof fn law_identity<T: DeltaOps>(a: T::V, d: T::Delta)
    requires
        T::is_delta(a, a, d),
    ensures
        T::is_unchanged(a, d),
        T::patched(a, d) == Some(a),
{
    T::lemma_identity(a, d);
}

/// Inverse: the inverse delta of `a` against `b` (the delta from `b` to `a`) takes `b`
/// back to `a`.
pub proof fn law_inverse<T: DeltaOps>(a: T::V, b: T::V, d: T::Delta)
    requires
        T::is_delta(b, a, d),
    ensures
        T::patched(b, d) == Some(a),
{
    T::lemma_round_trip(b, a, d);
}

/// Elision in sequences: an unchanged element costs one `Unchanged` marker whatever its
/// size, and only the elements past the old length are carried in full.
pub proof fn law_vec_elision<T: DeltaOps>(a: Seq<T::V>, b: Seq<T::V>, d: VecDelta<T>)
    requires
        <Vec<T> as DeltaOps>::is_delta(a, b, d),
    ensures
        d.changes@.len() == min_len(a.len() as int, b.len() as int),
        forall|i: int|
            0 <= i < d.changes@.len() && a[i] == b[i] ==> (#[trigger] d.changes@[i]) is Unchanged,
        d.appended@.len() == b.len() - min_len(a.len() as int, b.len() as int),
{
    let m = min_len(a.len() as int, b.len() as int);
    assert forall|i: int| 0 <= i < d.changes@.len() && a[i] == b[i] implies (
    #[trigger] d.changes@[i]) is Unchanged by {
        assert(crate::vec::is_elt_delta::<T>(a[i], b[i], d.changes@[i]));
    }
    assert(d.appended.deep_view().len() == b.len() - m);
}

/// Elision in optional values: equal contents give `NoChange`, whatever their size.
pub proof fn law_option_elision<T: DeltaOps>(a: T::V, d: OptionDelta<T>)
    requires
        <Option<T> as DeltaOps>::is_delta(Some(a), Some(a), d),
    ensures
        d is NoChange,
{
}

/// Tombstones in maps: a key that the old map has and the new one lacks gets a `Remove`
/// entry, and applying the delta deletes it; a key with an unchanged value gets `NoOp`.
pub proof fn law_map_tombstone<K: DeltaOps, V: DeltaOps>(
    a: Map<K::V, V::V>,
    b: Map<K::V, V::V>,
    d: MapDelta<K, V>,
    k: K::V,
)
    requires
        <KeyedMap<K, V> as DeltaOps>::is_delta(a, b, d),
        a.contains_key(k),
        !b.contains_key(k),
    ensures
        exists|i: int| 0 <= i < d.0@.len() && (#[trigger] d.0@[i]).0.deep_view() == k && d.0@[i].1 is Remove,
        <KeyedMap<K, V> as DeltaOps>::patched(a, d) matches Some(r) && !r.contains_key(k),
{
    assert(key_among(d.0@, d.0@.len() as int, k));
    let i = choose|i: int| 0 <= i < d.0@.len() && (#[trigger] d.0@[i]).0.deep_view() == k;
    assert(is_entry_delta::<K, V>(a, b, d.0@[i]));
    <KeyedMap<K, V> as DeltaOps>::lemma_round_trip(a, b, d);
}

/// Elision in maps: a key whose value is unchanged gets `NoOp`, whatever the value's size.
pub proof fn law_map_elision<K: DeltaOps, V: DeltaOps>(
    a: Map<K::V, V::V>,
    b: Map<K::V, V::V>,
    d: MapDelta<K, V>,
    i: int,
)
    requires
        <KeyedMap<K, V> as DeltaOps>::is_delta(a, b, d),
        0 <= i < d.0@.len(),
        a.contains_key(d.0@[i].0.deep_view()),
        b.contains_key(d.0@[i].0.deep_view()),
        a[d.0@[i].0.deep_view()] == b[d.0@[i].0.deep_view()],
    ensures
        d.0@[i].1 is NoOp,
{
    assert(is_entry_delta::<K, V>(a, b, d.0@[i]));
}

/// Growth and shrinking of sequences: whatever the two lengths, the empty sequence
/// included, the delta records the new length or the new elements, and applying it gives
/// exactly the target.
pub proof fn law_vec_resize<T: DeltaOps>(a: Seq<T::V>, b: Seq<T::V>, d: VecDelta<T>)
    requires
        <Vec<T> as DeltaOps>::is_delta(a, b, d),
    ensures
        b.len() < a.len() ==> d.truncate_to == Some(b.len() as usize),
        b.len() >= a.len() ==> d.truncate_to is None,
        b.len() > a.len() ==> d.appended.deep_view() == b.subrange(a.len() as int, b.len() as int),
        <Vec<T> as DeltaOps>::patched(a, d) == Some(b),
{
    <Vec<T> as DeltaOps>::lemma_round_trip(a, b, d);
}

/// History round trip: replaying a compaction of a sequence of states from the initial
/// value gives back exactly those states.
pub proof fn law_history_round_trip<T: DeltaOps>(states: Seq<T::V>, deltas: Seq<T::Delta>)
    requires
        compacts::<T>(states, deltas),
    ensures
        replay::<T>(deltas) == Some(states),
    decreases states.len(),
{
    if states.len() > 0 {
        let n = states.len() - 1;
        let front = states.drop_last();
        assert forall|i: int| 0 <= i < front.len() implies #[trigger] T::is_delta(
            prev_state(T::initial_model(), front, i),
            front[i],
            deltas.drop_last()[i],
        ) by {
            assert(T::is_delta(prev_state(T::initial_model(), states, i), states[i], deltas[i]));
        }
        law_history_round_trip::<T>(front, deltas.drop_last());
        assert(T::is_delta(prev_state(T::initial_model(), states, n), states[n], deltas[n]));
        T::lemma_round_trip(prev_state(T::initial_model(), states, n), states[n], deltas[n]);
        assert(front.push(states[n]) =~= states);
    } else {
        assert(deltas =~= Seq::<T::Delta>::empty());
    }
}

} // verus!
