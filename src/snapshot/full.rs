//! Histories kept as full states.
use vstd::prelude::*;
use crate::algebra::{DeltaError, DeltaOps, DeltaResult};
use crate::laws::law_history_round_trip;
use crate::snapshot::{compacts, prev_state};
use crate::snapshot::clock::{now, Timestamp};
use crate::snapshot::delta::{DeltaSnapshot, DeltaSnapshots};

use std::cmp::Ordering;
use crate::snapshot::order::{compare_snapshots, snapshot_cmp};

verus! {

/// One state of a history, with when and where it was recorded.
pub struct FullSnapshot<T: DeltaOps> {
    pub timestamp: Timestamp,
    pub origin: String,
    pub state: T,
}

/// Snapshots are compared by time and origin alone; what they carry is not compared.
impl<T: DeltaOps> PartialEq for FullSnapshot<T> {
    fn eq(&self, rhs: &Self) -> (r: bool) {
        if self.timestamp != rhs.timestamp {
            return false;
        }
        self.origin == rhs.origin
    }
}

impl<T: DeltaOps> vstd::std_specs::cmp::PartialEqSpecImpl for FullSnapshot<T> {
    open spec fn obeys_eq_spec() -> bool {
        true
    }

    open spec fn eq_spec(&self, rhs: &Self) -> bool {
        self.timestamp == rhs.timestamp && self.origin@ == rhs.origin@
    }
}

impl<T: DeltaOps> Eq for FullSnapshot<T> {}

/// Snapshots are ordered by time, then by origin; what they carry is not compared.
impl<T: DeltaOps> PartialOrd for FullSnapshot<T> {
    fn partial_cmp(&self, rhs: &Self) -> (r: Option<Ordering>) {
        Some(compare_snapshots(self.timestamp, &self.origin, rhs.timestamp, &rhs.origin))
    }
}

impl<T: DeltaOps> vstd::std_specs::cmp::PartialOrdSpecImpl for FullSnapshot<T> {
    open spec fn obeys_partial_cmp_spec() -> bool {
        true
    }

    open spec fn partial_cmp_spec(&self, rhs: &Self) -> Option<Ordering> {
        Some(snapshot_cmp(self.timestamp, self.origin@, rhs.timestamp, rhs.origin@))
    }
}

impl<T: DeltaOps> FullSnapshot<T> {
    /// The snapshot as plain values: time, origin and the state's model.
    pub open spec fn model(&self) -> (Timestamp, Seq<char>, T::V) {
        (self.timestamp, self.origin@, self.state.deep_view())
    }

    /// A snapshot of `state` from `origin`, stamped with the current time.
    pub fn new(origin: String, state: T) -> (r: Self)
        ensures
            r.origin == origin,
            r.state == state,
    {
        Self { timestamp: now(), origin, state }
    }

    /// The snapshot of the initial state, with origin `"default"`, stamped with `timestamp`.
    pub fn initial_at(timestamp: Timestamp) -> (r: Self)
        ensures
            r.timestamp == timestamp,
            r.origin@ == "default"@,
            r.state.deep_view() == T::initial_model(),
    {
        Self { timestamp, origin: "default".to_owned(), state: T::initial() }
    }
}

impl<T: DeltaOps> Default for FullSnapshot<T> {
    fn default() -> (r: Self)
        ensures
            r.origin@ == "default"@,
            r.state.deep_view() == T::initial_model(),
    {
        Self::initial_at(now())
    }
}

/// A history kept as its full states, in the order they were pushed.
pub struct FullSnapshots<T: DeltaOps>(pub Vec<FullSnapshot<T>>);

impl<T: DeltaOps> FullSnapshots<T> {
    /// The snapshots, in order.
    pub open spec fn view(&self) -> Seq<FullSnapshot<T>> {
        self.0@
    }

    /// The snapshots as plain values, in order.
    pub open spec fn models(&self) -> Seq<(Timestamp, Seq<char>, T::V)> {
        Seq::new(self.0@.len(), |i: int| self.0@[i].model())
    }

    /// The states' models, in order.
    pub open spec fn states(&self) -> Seq<T::V> {
        Seq::new(self.0@.len(), |i: int| self.0@[i].state.deep_view())
    }

    pub fn new() -> (r: Self)
        ensures
            r.view().len() == 0,
    {
        Self(Vec::new())
    }

    pub fn clear(&mut self)
        ensures
            final(self).view().len() == 0,
    {
        self.0.clear();
    }

    pub fn len(&self) -> (r: usize)
        ensures
            r == self.view().len(),
    {
        self.0.len()
    }

    pub fn is_empty(&self) -> (r: bool)
        ensures
            r == (self.view().len() == 0),
    {
        self.0.len() == 0
    }

    /// Appends a snapshot of `state` from `origin`, stamped with the current time.
    pub fn push_snapshot(&mut self, origin: String, state: T) -> (r: DeltaResult<()>)
        ensures
            r is Ok,
            final(self).view().len() == old(self).view().len() + 1,
            final(self).view().drop_last() == old(self).view(),
            final(self).view().last().origin == origin,
            final(self).view().last().state == state,
    {
        let timestamp = now();
        self.add_snapshot(FullSnapshot { timestamp, origin, state });
        Ok(())
    }

    /// Appends `snapshot`.
    pub fn add_snapshot(&mut self, snapshot: FullSnapshot<T>)
        ensures
            final(self).view() == old(self).view().push(snapshot),
    {
        self.0.push(snapshot);
    }

    /// The snapshot at `idx`, or `ExpectedValue` where there is none.
    pub fn snapshot_ref(&self, idx: usize) -> (r: DeltaResult<&FullSnapshot<T>>)
        ensures
            idx < self.view().len() ==> r == Ok::<&FullSnapshot<T>, DeltaError>(&self.view()[idx as int]),
            idx >= self.view().len() ==> r == Err::<&FullSnapshot<T>, DeltaError>(DeltaError::ExpectedValue),
    {
        if idx < self.0.len() {
            Ok(&self.0[idx])
        } else {
            Err(DeltaError::ExpectedValue)
        }
    }

    /// Compacts the history: each state becomes the delta from the state before it (from
    /// the initial value, for the first), with its time and origin kept. The latest state
    /// becomes the current one, or the initial value where the history is empty.
    pub fn to_delta_snapshots(self) -> (r: DeltaResult<DeltaSnapshots<T>>)
        ensures
            r is Ok,
            r matches Ok(h) ==> {
                &&& h.snapshots@.len() == self.view().len()
                &&& compacts::<T>(self.states(), h.deltas())
                &&& h.is_consistent()
                &&& forall|i: int| 0 <= i < self.view().len() ==>
                    (#[trigger] h.snapshots@[i]).timestamp == self.view()[i].timestamp
                    && h.snapshots@[i].origin@ == self.view()[i].origin@
                &&& if self.view().len() == 0 {
                    h.current.origin@ == "default"@ && h.current.state.deep_view() == T::initial_model()
                } else {
                    h.current == self.view().last()
                }
            },
    {
        let mut this = self;
        let ghost states = this.states();
        let initial: FullSnapshot<T> = FullSnapshot::default();
        let mut deltas: Vec<DeltaSnapshot<T>> = Vec::new();
        let mut sidx: usize = 0;
        while sidx < this.0.len()
            invariant
                sidx <= this.0.len(),
                states == this.states(),
                this.view() == self.view(),
                initial.state.deep_view() == T::initial_model(),
                deltas@.len() == sidx,
                forall|i: int| 0 <= i < sidx ==> #[trigger] T::is_delta(
                    prev_state(T::initial_model(), states, i),
                    states[i],
                    deltas@[i].delta,
                ),
                forall|i: int| 0 <= i < sidx ==>
                    (#[trigger] deltas@[i]).timestamp == this.view()[i].timestamp
                    && deltas@[i].origin@ == this.view()[i].origin@,
            decreases this.0.len() - sidx,
        {
            let old_state: &T = if sidx == 0 {
                &initial.state
            } else {
                &this.0[sidx - 1].state
            };
            let snapshot = &this.0[sidx];
            let delta = match old_state.delta(&snapshot.state) {
                Ok(d) => d,
                Err(e) => return Err(e),
            };
            deltas.push(DeltaSnapshot {
                timestamp: snapshot.timestamp,
                origin: snapshot.origin.clone(),
                delta,
            });
            sidx = sidx + 1;
        }
        let current = match this.0.pop() {
            Some(last) => last,
            None => initial,
        };
        let r = DeltaSnapshots { snapshots: deltas, current };
        assert(r.deltas().len() == states.len());
        assert forall|i: int| 0 <= i < states.len() implies #[trigger] T::is_delta(
            prev_state(T::initial_model(), states, i),
            states[i],
            r.deltas()[i],
        ) by {
            assert(T::is_delta(prev_state(T::initial_model(), states, i), states[i], deltas@[i].delta));
        }
        proof {
            law_history_round_trip::<T>(states, r.deltas());
        }
        Ok(r)
    }
}

impl<T: DeltaOps> Default for FullSnapshots<T> {
    fn default() -> (r: Self)
        ensures
            r.view().len() == 0,
    {
        Self::new()
    }
}

} // verus!
