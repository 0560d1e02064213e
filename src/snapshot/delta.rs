//! Histories kept as deltas, with the latest full state at hand.
use vstd::prelude::*;
use crate::algebra::{DeltaError, DeltaOps, DeltaResult};
use crate::snapshot::{lemma_replay_len, lemma_replay_prefix_fails, prev_state, replay};
use crate::snapshot::clock::{now, Timestamp};
use crate::snapshot::full::{FullSnapshot, FullSnapshots};

use std::cmp::Ordering;
use crate::snapshot::order::{compare_snapshots, snapshot_cmp};

verus! {

/// One change of a history: the delta from the state before, with when and where it was
/// recorded.
pub struct DeltaSnapshot<T: DeltaOps> {
    pub timestamp: Timestamp,
    pub origin: String,
    pub delta: T::Delta,
}

/// Snapshots are compared by time and origin alone; what they carry is not compared.
impl<T: DeltaOps> PartialEq for DeltaSnapshot<T> {
    fn eq(&self, rhs: &Self) -> (r: bool) {
        if self.timestamp != rhs.timestamp {
            return false;
        }
        self.origin == rhs.origin
    }
}

impl<T: DeltaOps> vstd::std_specs::cmp::PartialEqSpecImpl for DeltaSnapshot<T> {
    open spec fn obeys_eq_spec() -> bool {
        true
    }

    open spec fn eq_spec(&self, rhs: &Self) -> bool {
        self.timestamp == rhs.timestamp && self.origin@ == rhs.origin@
    }
}

impl<T: DeltaOps> Eq for DeltaSnapshot<T> {}

/// Snapshots are ordered by time, then by origin; what they carry is not compared.
impl<T: DeltaOps> PartialOrd for DeltaSnapshot<T> {
    fn partial_cmp(&self, rhs: &Self) -> (r: Option<Ordering>) {
        Some(compare_snapshots(self.timestamp, &self.origin, rhs.timestamp, &rhs.origin))
    }
}

impl<T: DeltaOps> vstd::std_specs::cmp::PartialOrdSpecImpl for DeltaSnapshot<T> {
    open spec fn obeys_partial_cmp_spec() -> bool {
        true
    }

    open spec fn partial_cmp_spec(&self, rhs: &Self) -> Option<Ordering> {
        Some(snapshot_cmp(self.timestamp, self.origin@, rhs.timestamp, rhs.origin@))
    }
}

impl<T: DeltaOps> DeltaSnapshot<T> {
    /// A snapshot of `delta` from `origin`, stamped with the current time.
    pub fn new(origin: String, delta: T::Delta) -> (r: Self)
        ensures
            r.origin == origin,
            r.delta == delta,
    {
        Self { timestamp: now(), origin, delta }
    }
}

/// A history kept as deltas, each from the state before it, and the current state, which
/// is the state that replaying all of them from the initial value reaches.
pub struct DeltaSnapshots<T: DeltaOps> {
    pub snapshots: Vec<DeltaSnapshot<T>>,
    pub current: FullSnapshot<T>,
}

impl<T: DeltaOps> DeltaSnapshots<T> {
    /// The snapshots, in order.
    pub open spec fn view(&self) -> Seq<DeltaSnapshot<T>> {
        self.snapshots@
    }

    /// The current full snapshot.
    pub open spec fn current_spec(&self) -> FullSnapshot<T> {
        self.current
    }

    /// The deltas, in order.
    pub open spec fn deltas(&self) -> Seq<T::Delta> {
        Seq::new(self.snapshots@.len(), |i: int| self.snapshots@[i].delta)
    }

    /// The current state is the one that replaying the deltas from the initial value reaches.
    pub open spec fn is_consistent(&self) -> bool {
        replay::<T>(self.deltas()) matches Some(states) && self.current.state.deep_view()
            == prev_state(T::initial_model(), states, states.len() as int)
    }

    pub fn new() -> (r: Self)
        ensures
            r.view().len() == 0,
            r.current_spec().origin@ == "default"@,
            r.current_spec().state.deep_view() == T::initial_model(),
            r.is_consistent(),
    {
        let r = Self { snapshots: Vec::new(), current: FullSnapshot::default() };
        assert(r.deltas() =~= Seq::<T::Delta>::empty());
        r
    }

    pub fn current(&self) -> (r: &FullSnapshot<T>)
        ensures
            *r == self.current_spec(),
    {
        &self.current
    }

    /// Makes a copy of `state` from `origin` the current state, stamped with the current
    /// time; the deltas stay as they are.
    pub fn update_current(&mut self, origin: String, state: &T)
        ensures
            final(self).view() == old(self).view(),
            final(self).current_spec().origin == origin,
            final(self).current_spec().state.deep_view() == state.deep_view(),
    {
        self.current.state = state.copy_value();
        self.current.origin = origin;
        self.current.timestamp = now();
    }

    /// Empties the history; the current state becomes the initial value.
    pub fn clear(&mut self)
        ensures
            final(self).view().len() == 0,
            final(self).current_spec().origin@ == "default"@,
            final(self).current_spec().state.deep_view() == T::initial_model(),
            final(self).is_consistent(),
    {
        self.snapshots.clear();
        self.current = FullSnapshot::default();
        assert(self.deltas() =~= Seq::<T::Delta>::empty());
    }

    pub fn len(&self) -> (r: usize)
        ensures
            r == self.view().len(),
    {
        self.snapshots.len()
    }

    pub fn is_empty(&self) -> (r: bool)
        ensures
            r == (self.view().len() == 0),
    {
        self.snapshots.len() == 0
    }

    /// Records `state` from `origin`, stamped with the current time: appends the delta from
    /// the current state to it, and makes it the current state.
    pub fn push_snapshot(&mut self, origin: String, state: T) -> (r: DeltaResult<()>)
        ensures
            r is Ok,
            final(self).view().len() == old(self).view().len() + 1,
            final(self).view().drop_last() == old(self).view(),
            final(self).view().last().origin == origin,
            T::is_delta(
                old(self).current_spec().state.deep_view(),
                state.deep_view(),
                final(self).view().last().delta,
            ),
            final(self).current_spec().origin == origin,
            final(self).current_spec().state == state,
            final(self).current_spec().timestamp == final(self).view().last().timestamp,
            old(self).is_consistent() ==> final(self).is_consistent(),
    {
        let timestamp = now();
        self.push_snapshot_at(timestamp, origin, state)
    }

    /// Records `state` from `origin` at `timestamp`: appends the delta from the current
    /// state to it, and makes it the current state.
    pub fn push_snapshot_at(&mut self, timestamp: Timestamp, origin: String, state: T) -> (r:
        DeltaResult<()>)
        ensures
            r is Ok,
            final(self).view() == old(self).view().push(final(self).view().last()),
            final(self).view().last().timestamp == timestamp,
            final(self).view().last().origin == origin,
            T::is_delta(
                old(self).current_spec().state.deep_view(),
                state.deep_view(),
                final(self).view().last().delta,
            ),
            final(self).current_spec().timestamp == timestamp,
            final(self).current_spec().origin == origin,
            final(self).current_spec().state == state,
            old(self).is_consistent() ==> final(self).is_consistent(),
    {
        let ghost old_deltas = self.deltas();
        let ghost old_current = self.current.state.deep_view();
        let delta = match self.current.state.delta(&state) {
            Ok(d) => d,
            Err(e) => return Err(e),
        };
        let full = FullSnapshot { timestamp, origin, state };
        let ghost d = delta;
        self.add_snapshot(DeltaSnapshot { timestamp: full.timestamp, origin: full.origin.clone(), delta });
        self.current = full;
        proof {
            assert(self.deltas().drop_last() =~= old_deltas);
            assert(self.deltas().last() == d);
            match replay::<T>(old_deltas) {
                Some(states) => {
                    if old_current == prev_state(T::initial_model(), states, states.len() as int) {
                        T::lemma_round_trip(old_current, self.current.state.deep_view(), d);
                    }
                },
                None => {},
            }
        }
        Ok(())
    }

    /// Appends `snapshot`; the current state stays as it is.
    pub fn add_snapshot(&mut self, snapshot: DeltaSnapshot<T>)
        ensures
            final(self).view() == old(self).view().push(snapshot),
            final(self).current_spec() == old(self).current_spec(),
    {
        self.snapshots.push(snapshot);
    }

    /// Removes and returns all snapshots; the current state stays as it is.
    pub fn take_snapshots(&mut self) -> (r: Vec<DeltaSnapshot<T>>)
        ensures
            r@ == old(self).view(),
            final(self).view().len() == 0,
            final(self).current_spec() == old(self).current_spec(),
    {
        let mut taken: Vec<DeltaSnapshot<T>> = Vec::new();
        std::mem::swap(&mut taken, &mut self.snapshots);
        taken
    }

    /// Expands the history: replays the deltas in order from the initial value, each state
    /// kept with its delta's time and origin. Fails with the first delta that does not
    /// apply, and then returns nothing of what was replayed.
    pub fn to_full_snapshots(self) -> (r: DeltaResult<FullSnapshots<T>>)
        ensures
            match r {
                Ok(f) => {
                    &&& replay::<T>(self.deltas()) == Some(f.states())
                    &&& f.view().len() == self.view().len()
                    &&& forall|i: int| 0 <= i < self.view().len() ==>
                        (#[trigger] f.view()[i]).timestamp == self.view()[i].timestamp
                        && f.view()[i].origin@ == self.view()[i].origin@
                },
                Err(e) => replay::<T>(self.deltas()) is None && e == DeltaError::ExpectedValue,
            },
    {
        let ghost deltas = self.deltas();
        let initial: FullSnapshot<T> = FullSnapshot::default();
        let mut uncompressed: Vec<FullSnapshot<T>> = Vec::new();
        let mut i: usize = 0;
        while i < self.snapshots.len()
            invariant
                i <= self.snapshots.len(),
                deltas == self.deltas(),
                initial.state.deep_view() == T::initial_model(),
                uncompressed@.len() == i,
                replay::<T>(deltas.take(i as int)) == Some(
                    Seq::new(uncompressed@.len(), |j: int| uncompressed@[j].state.deep_view()),
                ),
                forall|j: int| 0 <= j < i ==>
                    (#[trigger] uncompressed@[j]).timestamp == self.snapshots@[j].timestamp
                    && uncompressed@[j].origin@ == self.snapshots@[j].origin@,
            decreases self.snapshots.len() - i,
        {
            let ghost states = Seq::new(
                uncompressed@.len(),
                |j: int| uncompressed@[j].state.deep_view(),
            );
            let snapshot = &self.snapshots[i];
            let old_state: &T = if i == 0 {
                &initial.state
            } else {
                &uncompressed[i - 1].state
            };
            assert(old_state.deep_view() == prev_state(T::initial_model(), states, states.len() as int));
            assert(deltas.take(i + 1).drop_last() =~= deltas.take(i as int));
            assert(deltas.take(i + 1).last() == snapshot.delta);
            let new_state: T = match old_state.apply_delta(&snapshot.delta) {
                Ok(v) => v,
                Err(e) => {
                    proof {
                        lemma_replay_prefix_fails::<T>(deltas, i + 1);
                    }
                    return Err(e);
                },
            };
            uncompressed.push(FullSnapshot {
                timestamp: snapshot.timestamp,
                origin: snapshot.origin.clone(),
                state: new_state,
            });
            i = i + 1;
            assert(Seq::new(uncompressed@.len(), |j: int| uncompressed@[j].state.deep_view())
                =~= states.push(new_state.deep_view()));
        }
        assert(deltas.take(i as int) =~= deltas);
        Ok(FullSnapshots(uncompressed))
    }
}

impl<T: DeltaOps> Default for DeltaSnapshots<T> {
    fn default() -> (r: Self)
        ensures
            r.view().len() == 0,
            r.is_consistent(),
    {
        Self::new()
    }
}

} // verus!
