//! Sequences: per-index child deltas over the common prefix, then a truncation or an
//! append list of full values.
use vstd::prelude::*;
use crate::algebra::{DeltaError, DeltaOps, DeltaResult};

verus! {

/// The delta of one element of the common prefix.
pub enum EltDelta<T: DeltaOps> {
    /// The element is unchanged.
    Unchanged,
    /// The element changed by this child delta.
    Changed(T::Delta),
}

/// The delta of a sequence.
pub struct VecDelta<T: DeltaOps> {
    /// One entry per index of the prefix that both sequences share.
    pub changes: Vec<EltDelta<T>>,
    /// The new length, where the sequence shrank.
    pub truncate_to: Option<usize>,
    /// The elements past the old length, where the sequence grew.
    pub appended: Vec<T>,
}

/// What one element delta makes of an element modelled by `a`.
pub open spec fn elt_patched<T: DeltaOps>(a: T::V, e: EltDelta<T>) -> Option<T::V> {
    match e {
        EltDelta::Unchanged => Some(a),
        EltDelta::Changed(d) => T::patched(a, d),
    }
}

/// `e` is the element delta that `delta` records from `a` to `b`.
pub open spec fn is_elt_delta<T: DeltaOps>(a: T::V, b: T::V, e: EltDelta<T>) -> bool {
    if a == b {
        e is Unchanged
    } else {
        e matches EltDelta::Changed(d) && T::is_delta(a, b, d)
    }
}

/// Every element delta of `c` has an element of `a` to apply to, and applies.
pub open spec fn changes_apply<T: DeltaOps>(a: Seq<T::V>, c: Seq<EltDelta<T>>) -> bool {
    &&& c.len() <= a.len()
    &&& forall|i: int| 0 <= i < c.len() ==> (#[trigger] elt_patched::<T>(a[i], c[i])) is Some
}

/// `a` with the element deltas of `c` applied to its first `c.len()` elements.
pub open spec fn changed_prefix<T: DeltaOps>(a: Seq<T::V>, c: Seq<EltDelta<T>>) -> Seq<T::V> {
    Seq::new(
        a.len(),
        |i: int|
            if i < c.len() {
                elt_patched::<T>(a[i], c[i])->Some_0
            } else {
                a[i]
            },
    )
}

/// `s` cut to `truncate_to` where that is shorter, then extended by `appended`.
pub open spec fn resized<V>(s: Seq<V>, truncate_to: Option<usize>, appended: Seq<V>) -> Seq<V> {
    let kept = match truncate_to {
        Some(n) => if n < s.len() {
            s.take(n as int)
        } else {
            s
        },
        None => s,
    };
    kept + appended
}

pub open spec fn min_len(a: int, b: int) -> int {
    if a < b {
        a
    } else {
        b
    }
}

impl<T: DeltaOps> DeltaOps for Vec<T> {
    type Delta = VecDelta<T>;

    open spec fn patched(a: Seq<T::V>, d: VecDelta<T>) -> Option<Seq<T::V>> {
        if changes_apply::<T>(a, d.changes@) {
            Some(resized(changed_prefix::<T>(a, d.changes@), d.truncate_to, d.appended.deep_view()))
        } else {
            None
        }
    }

    open spec fn is_delta(a: Seq<T::V>, b: Seq<T::V>, d: VecDelta<T>) -> bool {
        let m = min_len(a.len() as int, b.len() as int);
        &&& d.changes@.len() == m
        &&& forall|i: int| 0 <= i < m ==> #[trigger] is_elt_delta::<T>(a[i], b[i], d.changes@[i])
        &&& (d.truncate_to is Some <==> b.len() < a.len())
        &&& d.truncate_to matches Some(n) ==> n == b.len()
        &&& d.appended.deep_view() == b.subrange(m, b.len() as int)
    }

    open spec fn is_unchanged(a: Seq<T::V>, d: VecDelta<T>) -> bool {
        &&& d.changes@.len() == a.len()
        &&& forall|i: int| 0 <= i < a.len() ==> (#[trigger] d.changes@[i]) is Unchanged
        &&& d.truncate_to is None
        &&& d.appended@.len() == 0
    }

    open spec fn initial_model() -> Seq<T::V> {
        Seq::empty()
    }

    proof fn lemma_round_trip(a: Seq<T::V>, b: Seq<T::V>, d: VecDelta<T>) {
        let m = min_len(a.len() as int, b.len() as int);
        let c = d.changes@;
        assert forall|i: int| 0 <= i < c.len() implies (#[trigger] elt_patched::<T>(a[i], c[i]))
            == Some(b[i]) by {
            assert(is_elt_delta::<T>(a[i], b[i], c[i]));
            if a[i] != b[i] {
                T::lemma_round_trip(a[i], b[i], c[i]->Changed_0);
            }
        }
        let p = changed_prefix::<T>(a, c);
        let kept = match d.truncate_to {
            Some(n) => if n < p.len() {
                p.take(n as int)
            } else {
                p
            },
            None => p,
        };
        assert(kept =~= b.take(m));
        assert(kept + d.appended.deep_view() =~= b);
    }

    proof fn lemma_identity(a: Seq<T::V>, d: VecDelta<T>) {
        let c = d.changes@;
        assert forall|i: int| 0 <= i < a.len() implies (#[trigger] c[i]) is Unchanged by {
            assert(is_elt_delta::<T>(a[i], a[i], c[i]));
        }
        assert(d.appended.deep_view().len() == 0);
        assert forall|i: int| 0 <= i < c.len() implies (#[trigger] elt_patched::<T>(a[i], c[i]))
            is Some by {
            assert(c[i] is Unchanged);
        }
        assert(changed_prefix::<T>(a, c) + d.appended.deep_view() =~= a);
    }

    fn apply_delta(&self, delta: &VecDelta<T>) -> (r: DeltaResult<Vec<T>>) {
        let ghost a = self.deep_view();
        let ghost c = delta.changes@;
        if delta.changes.len() > self.len() {
            return Err(DeltaError::ExpectedValue);
        }
        let mut out: Vec<T> = Vec::new();
        let mut i: usize = 0;
        while i < self.len()
            invariant
                i <= self.len(),
                a == self.deep_view(),
                c == delta.changes@,
                c.len() <= a.len(),
                out@.len() == i,
                forall|j: int| 0 <= j < i && j < c.len() ==> (#[trigger] elt_patched::<T>(a[j], c[j])) is Some,
                forall|j: int| 0 <= j < i ==> (#[trigger] out@[j]).deep_view() == changed_prefix::<T>(a, c)[j],
            decreases self.len() - i,
        {
            if i < delta.changes.len() {
                match &delta.changes[i] {
                    EltDelta::Unchanged => {
                        out.push(self[i].copy_value());
                    },
                    EltDelta::Changed(d) => {
                        match self[i].apply_delta(d) {
                            Ok(v) => {
                                out.push(v);
                            },
                            Err(e) => {
                                assert(elt_patched::<T>(a[i as int], c[i as int]) is None);
                                return Err(e);
                            },
                        }
                    },
                }
            } else {
                out.push(self[i].copy_value());
            }
            i = i + 1;
        }
        assert(changes_apply::<T>(a, c));
        assert(out.deep_view() =~= changed_prefix::<T>(a, c));
        let ghost p = out.deep_view();
        match delta.truncate_to {
            Some(n) => {
                if n < out.len() {
                    out.truncate(n);
                }
            },
            None => {},
        }
        let ghost kept = out.deep_view();
        let mut k: usize = 0;
        while k < delta.appended.len()
            invariant
                k <= delta.appended.len(),
                out@.len() == kept.len() + k,
                forall|j: int| 0 <= j < kept.len() ==> (#[trigger] out@[j]).deep_view() == kept[j],
                forall|j: int| 0 <= j < k ==> (#[trigger] out@[kept.len() + j]).deep_view()
                    == delta.appended@[j].deep_view(),
            decreases delta.appended.len() - k,
        {
            out.push(delta.appended[k].copy_value());
            k = k + 1;
        }
        assert forall|j: int| kept.len() <= j < out@.len() implies out.deep_view()[j] == (kept
            + delta.appended.deep_view())[j] by {
            let jj = j - kept.len();
            assert(out@[kept.len() + jj].deep_view() == delta.appended@[jj].deep_view());
        }
        assert(out.deep_view() =~= kept + delta.appended.deep_view());
        assert(kept =~= match delta.truncate_to {
            Some(n) => if n < p.len() {
                p.take(n as int)
            } else {
                p
            },
            None => p,
        });
        Ok(out)
    }

    fn delta(&self, rhs: &Vec<T>) -> (r: DeltaResult<VecDelta<T>>) {
        let ghost a = self.deep_view();
        let ghost b = rhs.deep_view();
        let m: usize = if self.len() < rhs.len() {
            self.len()
        } else {
            rhs.len()
        };
        let mut changes: Vec<EltDelta<T>> = Vec::new();
        let mut i: usize = 0;
        while i < m
            invariant
                i <= m,
                m == min_len(a.len() as int, b.len() as int),
                a == self.deep_view(),
                b == rhs.deep_view(),
                changes@.len() == i,
                forall|j: int| 0 <= j < i ==> #[trigger] is_elt_delta::<T>(a[j], b[j], changes@[j]),
            decreases m - i,
        {
            if self[i].same_value(&rhs[i]) {
                changes.push(EltDelta::Unchanged);
            } else {
                match self[i].delta(&rhs[i]) {
                    Ok(d) => {
                        changes.push(EltDelta::Changed(d));
                    },
                    Err(e) => {
                        return Err(e);
                    },
                }
            }
            i = i + 1;
        }
        let truncate_to: Option<usize> = if rhs.len() < self.len() {
            Some(rhs.len())
        } else {
            None
        };
        let mut appended: Vec<T> = Vec::new();
        let mut k: usize = m;
        while k < rhs.len()
            invariant
                m <= k <= rhs.len(),
                b == rhs.deep_view(),
                appended@.len() == k - m,
                forall|j: int| 0 <= j < k - m ==> (#[trigger] appended@[j]).deep_view() == b[m + j],
            decreases rhs.len() - k,
        {
            appended.push(rhs[k].copy_value());
            k = k + 1;
        }
        assert(appended.deep_view() =~= b.subrange(m as int, b.len() as int));
        Ok(VecDelta { changes, truncate_to, appended })
    }

    fn same_value(&self, other: &Vec<T>) -> (r: bool) {
        if self.len() != other.len() {
            assert(self.deep_view().len() != other.deep_view().len());
            return false;
        }
        let mut i: usize = 0;
        while i < self.len()
            invariant
                i <= self.len(),
                self.len() == other.len(),
                forall|j: int| 0 <= j < i ==> (#[trigger] self@[j]).deep_view() == other@[j].deep_view(),
            decreases self.len() - i,
        {
            if !self[i].same_value(&other[i]) {
                assert(self.deep_view()[i as int] != other.deep_view()[i as int]);
                return false;
            }
            i = i + 1;
        }
        assert(self.deep_view() =~= other.deep_view());
        true
    }

    fn copy_value(&self) -> (r: Vec<T>) {
        let mut out: Vec<T> = Vec::new();
        let mut i: usize = 0;
        while i < self.len()
            invariant
                i <= self.len(),
                out@.len() == i,
                forall|j: int| 0 <= j < i ==> (#[trigger] out@[j]).deep_view() == self@[j].deep_view(),
            decreases self.len() - i,
        {
            out.push(self[i].copy_value());
            i = i + 1;
        }
        assert(out.deep_view() =~= self.deep_view());
        out
    }

    fn initial() -> (r: Vec<T>) {
        let r: Vec<T> = Vec::new();
        assert(r.deep_view() =~= Seq::<T::V>::empty());
        r
    }
}

} // verus!
