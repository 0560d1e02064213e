//! Keyed maps: one entry delta per key, where a key missing from the new map leaves a
//! tombstone.
use vstd::prelude::*;
use crate::algebra::{DeltaError, DeltaOps, DeltaResult};

verus! {

/// A map kept as a list of key-value pairs, in which a later pair shadows every earlier
/// pair with the same key.
pub struct KeyedMap<K, V> {
    pub entries: Vec<(K, V)>,
}

/// The map that a list of pairs stands for: each pair, in order, overrides its key.
pub open spec fn pairs_map<K: DeepView, V: DeepView>(s: Seq<(K, V)>) -> Map<K::V, V::V>
    decreases s.len(),
{
    if s.len() == 0 {
        Map::empty()
    } else {
        pairs_map(s.drop_last()).insert(s.last().0.deep_view(), s.last().1.deep_view())
    }
}

/// `i` is the last index of `s` whose key is modelled by `k`.
pub open spec fn is_last_of<K: DeepView, V>(s: Seq<(K, V)>, i: int, k: K::V) -> bool {
    &&& 0 <= i < s.len()
    &&& s[i].0.deep_view() == k
    &&& forall|j: int| i < j < s.len() ==> (#[trigger] s[j]).0.deep_view() != k
}

pub proof fn lemma_pairs_map_dom<K: DeepView, V: DeepView>(s: Seq<(K, V)>, k: K::V)
    ensures
        pairs_map(s).contains_key(k) <==> exists|j: int|
            0 <= j < s.len() && (#[trigger] s[j]).0.deep_view() == k,
    decreases s.len(),
{
    if s.len() > 0 {
        lemma_pairs_map_dom(s.drop_last(), k);
        if pairs_map(s.drop_last()).contains_key(k) {
            let j = choose|j: int| 0 <= j < s.len() - 1 && (#[trigger] s.drop_last()[j]).0.deep_view() == k;
            assert(s[j] == s.drop_last()[j]);
        }
        if exists|j: int| 0 <= j < s.len() && (#[trigger] s[j]).0.deep_view() == k {
            let j = choose|j: int| 0 <= j < s.len() && (#[trigger] s[j]).0.deep_view() == k;
            if j < s.len() - 1 {
                assert(s.drop_last()[j] == s[j]);
            }
        }
    }
}

pub proof fn lemma_pairs_map_last<K: DeepView, V: DeepView>(s: Seq<(K, V)>, i: int)
    requires
        is_last_of(s, i, s[i].0.deep_view()),
    ensures
        pairs_map(s).contains_key(s[i].0.deep_view()),
        pairs_map(s)[s[i].0.deep_view()] == s[i].1.deep_view(),
    decreases s.len(),
{
    if i < s.len() - 1 {
        assert(s.drop_last()[i] == s[i]);
        assert forall|j: int| i < j < s.len() - 1 implies (#[trigger] s.drop_last()[j]).0.deep_view()
            != s[i].0.deep_view() by {
            assert(s.drop_last()[j] == s[j]);
        }
        lemma_pairs_map_last(s.drop_last(), i);
        assert(s[s.len() - 1].0.deep_view() != s[i].0.deep_view());
    }
}

pub proof fn lemma_pairs_map_update<K: DeepView, V: DeepView>(s: Seq<(K, V)>, i: int, p: (K, V))
    requires
        is_last_of(s, i, p.0.deep_view()),
    ensures
        pairs_map(s.update(i, p)) == pairs_map(s).insert(p.0.deep_view(), p.1.deep_view()),
    decreases s.len(),
{
    let t = s.update(i, p);
    if i == s.len() - 1 {
        assert(t.drop_last() =~= s.drop_last());
        assert(pairs_map(t) =~= pairs_map(s).insert(p.0.deep_view(), p.1.deep_view()));
    } else {
        assert(t.drop_last() =~= s.drop_last().update(i, p));
        assert forall|j: int| i < j < s.len() - 1 implies (#[trigger] s.drop_last()[j]).0.deep_view()
            != p.0.deep_view() by {
            assert(s.drop_last()[j] == s[j]);
        }
        lemma_pairs_map_update(s.drop_last(), i, p);
        assert(s.last().0.deep_view() != p.0.deep_view());
        assert(pairs_map(t) =~= pairs_map(s).insert(p.0.deep_view(), p.1.deep_view()));
    }
}

/// The last pair of `s` with key `k` stands before index `n`.
pub open spec fn last_before<K: DeepView, V>(s: Seq<(K, V)>, k: K::V, n: int) -> bool {
    exists|t: int| 0 <= t < n && #[trigger] is_last_of(s, t, k)
}

/// The index of the last pair of `s` whose key equals `k`.
fn find_last<K: DeltaOps, V>(s: &Vec<(K, V)>, k: &K) -> (r: Option<usize>)
    ensures
        match r {
            Some(i) => is_last_of(s@, i as int, k.deep_view()),
            None => forall|j: int| 0 <= j < s@.len() ==> (#[trigger] s@[j]).0.deep_view() != k.deep_view(),
        },
{
    let mut i: usize = s.len();
    while i > 0
        invariant
            i <= s@.len(),
            forall|j: int| i <= j < s@.len() ==> (#[trigger] s@[j]).0.deep_view() != k.deep_view(),
        decreases i,
    {
        i = i - 1;
        if s[i].0.same_value(k) {
            return Some(i);
        }
    }
    None
}

/// A copy of `s` without the pairs whose key equals `k`.
fn without_key<K: DeltaOps, V: DeltaOps>(s: &Vec<(K, V)>, k: &K) -> (r: Vec<(K, V)>)
    ensures
        pairs_map(r@) == pairs_map(s@).remove(k.deep_view()),
{
    let mut out: Vec<(K, V)> = Vec::new();
    let mut i: usize = 0;
    while i < s.len()
        invariant
            i <= s@.len(),
            pairs_map(out@) == pairs_map(s@.take(i as int)).remove(k.deep_view()),
        decreases s@.len() - i,
    {
        assert(s@.take(i + 1).drop_last() =~= s@.take(i as int));
        assert(s@.take(i + 1).last() == s@[i as int]);
        if !s[i].0.same_value(k) {
            let p = (s[i].0.copy_value(), s[i].1.copy_value());
            let ghost before = out@;
            out.push(p);
            assert(out@.drop_last() =~= before);
        }
        i = i + 1;
        assert(pairs_map(out@) =~= pairs_map(s@.take(i as int)).remove(k.deep_view()));
    }
    assert(s@.take(i as int) =~= s@);
    out
}

impl<K: DeltaOps, V: DeltaOps> DeepView for KeyedMap<K, V> {
    type V = Map<K::V, V::V>;

    open spec fn deep_view(&self) -> Map<K::V, V::V> {
        pairs_map(self.entries@)
    }
}

impl<K: DeltaOps, V: DeltaOps> KeyedMap<K, V> {
    pub fn new() -> (r: Self)
        ensures
            r.deep_view() == Map::<K::V, V::V>::empty(),
    {
        KeyedMap { entries: Vec::new() }
    }

    /// Sets the value of `k` to `v`.
    pub fn insert(&mut self, k: K, v: V)
        ensures
            final(self).deep_view() == old(self).deep_view().insert(k.deep_view(), v.deep_view()),
    {
        let ghost p = (k, v);
        self.entries.push((k, v));
        assert(self.entries@.drop_last() == old(self).entries@);
    }

    /// The value of `k`, if it has one.
    pub fn get(&self, k: &K) -> (r: Option<&V>)
        ensures
            match r {
                Some(v) => self.deep_view().contains_key(k.deep_view()) && self.deep_view()[k.deep_view()]
                    == v.deep_view(),
                None => !self.deep_view().contains_key(k.deep_view()),
            },
    {
        match find_last(&self.entries, k) {
            Some(i) => {
                proof {
                    lemma_pairs_map_last(self.entries@, i as int);
                }
                Some(&self.entries[i].1)
            },
            None => {
                proof {
                    lemma_pairs_map_dom(self.entries@, k.deep_view());
                }
                None
            },
        }
    }

    /// `k` has a value.
    pub fn contains_key(&self, k: &K) -> (r: bool)
        ensures
            r == self.deep_view().contains_key(k.deep_view()),
    {
        self.get(k).is_some()
    }

    /// Removes the value of `k`, if it has one.
    pub fn remove(&mut self, k: &K)
        ensures
            final(self).deep_view() == old(self).deep_view().remove(k.deep_view()),
    {
        self.entries = without_key(&self.entries, k);
    }
}

/// What happens to one key.
pub enum EntryDelta<V: DeltaOps> {
    /// The key keeps its value.
    NoOp,
    /// The key keeps a value, changed by this child delta.
    Modify(V::Delta),
    /// The key gets this value, which it did not have before.
    Insert(V),
    /// The key loses its value: a tombstone.
    Remove,
}

/// The delta of a keyed map: one entry delta per key, each key at most once.
pub struct MapDelta<K: DeltaOps, V: DeltaOps>(pub Vec<(K, EntryDelta<V>)>);

/// What one entry delta makes of the map `m`, or `None` where it modifies a key that has
/// no value.
pub open spec fn entry_patched<K: DeltaOps, V: DeltaOps>(
    m: Map<K::V, V::V>,
    e: (K, EntryDelta<V>),
) -> Option<Map<K::V, V::V>> {
    let k = e.0.deep_view();
    match e.1 {
        EntryDelta::NoOp => Some(m),
        EntryDelta::Modify(d) => if m.contains_key(k) {
            match V::patched(m[k], d) {
                Some(v) => Some(m.insert(k, v)),
                None => None,
            }
        } else {
            None
        },
        EntryDelta::Insert(v) => Some(m.insert(k, v.deep_view())),
        EntryDelta::Remove => Some(m.remove(k)),
    }
}

/// The entry deltas of `es` applied to `m` in order.
pub open spec fn entries_patched<K: DeltaOps, V: DeltaOps>(
    m: Map<K::V, V::V>,
    es: Seq<(K, EntryDelta<V>)>,
) -> Option<Map<K::V, V::V>>
    decreases es.len(),
{
    if es.len() == 0 {
        Some(m)
    } else {
        match entries_patched(m, es.drop_last()) {
            None => None,
            Some(m2) => entry_patched(m2, es.last()),
        }
    }
}

/// `e` is the entry delta that `delta` records for its key from `a` to `b`.
pub open spec fn is_entry_delta<K: DeltaOps, V: DeltaOps>(
    a: Map<K::V, V::V>,
    b: Map<K::V, V::V>,
    e: (K, EntryDelta<V>),
) -> bool {
    let k = e.0.deep_view();
    if a.contains_key(k) && b.contains_key(k) {
        if a[k] == b[k] {
            e.1 is NoOp
        } else {
            e.1 matches EntryDelta::Modify(d) && V::is_delta(a[k], b[k], d)
        }
    } else if a.contains_key(k) {
        e.1 is Remove
    } else if b.contains_key(k) {
        e.1 matches EntryDelta::Insert(v) && v.deep_view() == b[k]
    } else {
        false
    }
}

/// No key occurs twice in `es`.
pub open spec fn keys_distinct<K: DeepView, E>(es: Seq<(K, E)>) -> bool {
    forall|i: int, j: int|
        0 <= i < j < es.len() ==> (#[trigger] es[i]).0.deep_view() != (#[trigger] es[j]).0.deep_view()
}

/// `k` is the key of one of the first `n` entries of `es`.
pub open spec fn key_among<K: DeepView, E>(es: Seq<(K, E)>, n: int, k: K::V) -> bool {
    exists|i: int| 0 <= i < n && (#[trigger] es[i]).0.deep_view() == k
}

/// The map that has `b`'s value (or none) at the keys of `done`, and `a`'s elsewhere.
pub open spec fn mixed<KV, VV>(a: Map<KV, VV>, b: Map<KV, VV>, done: spec_fn(KV) -> bool) -> Map<KV, VV> {
    Map::new(
        |k: KV|
            if done(k) {
                b.contains_key(k)
            } else {
                a.contains_key(k)
            },
        |k: KV|
            if done(k) {
                b[k]
            } else {
                a[k]
            },
    )
}

proof fn lemma_entries_round_trip<K: DeltaOps, V: DeltaOps>(
    a: Map<K::V, V::V>,
    b: Map<K::V, V::V>,
    es: Seq<(K, EntryDelta<V>)>,
)
    requires
        keys_distinct(es),
        forall|i: int| 0 <= i < es.len() ==> #[trigger] is_entry_delta::<K, V>(a, b, es[i]),
    ensures
        entries_patched(a, es) == Some(mixed(a, b, |k: K::V| key_among(es, es.len() as int, k))),
    decreases es.len(),
{
    if es.len() == 0 {
        assert(mixed(a, b, |k: K::V| key_among(es, es.len() as int, k)) =~= a);
    } else {
        let front = es.drop_last();
        assert forall|i: int, j: int| 0 <= i < j < front.len() implies (#[trigger] front[i]).0.deep_view()
            != (#[trigger] front[j]).0.deep_view() by {
            assert(front[i] == es[i] && front[j] == es[j]);
        }
        assert forall|i: int| 0 <= i < front.len() implies #[trigger] is_entry_delta::<K, V>(a, b, front[i]) by {
            assert(front[i] == es[i]);
            assert(is_entry_delta::<K, V>(a, b, es[i]));
        }
        lemma_entries_round_trip::<K, V>(a, b, front);
        let m = mixed(a, b, |k: K::V| key_among(front, front.len() as int, k));
        let e = es.last();
        let k = e.0.deep_view();
        assert(!key_among(front, front.len() as int, k)) by {
            if key_among(front, front.len() as int, k) {
                let i = choose|i: int| 0 <= i < front.len() && (#[trigger] front[i]).0.deep_view() == k;
                assert(front[i] == es[i]);
                assert(es[i].0.deep_view() != es[es.len() - 1].0.deep_view());
            }
        }
        assert(is_entry_delta::<K, V>(a, b, es[es.len() - 1]));
        if let EntryDelta::Modify(d) = e.1 {
            V::lemma_round_trip(a[k], b[k], d);
        }
        let target = mixed(a, b, |k: K::V| key_among(es, es.len() as int, k));
        assert forall|k2: K::V| key_among(es, es.len() as int, k2) <==> (key_among(
            front,
            front.len() as int,
            k2,
        ) || k2 == k) by {
            if key_among(front, front.len() as int, k2) {
                let i = choose|i: int| 0 <= i < front.len() && (#[trigger] front[i]).0.deep_view() == k2;
                assert(front[i] == es[i]);
            }
            if key_among(es, es.len() as int, k2) {
                let i = choose|i: int| 0 <= i < es.len() && (#[trigger] es[i]).0.deep_view() == k2;
                if i < front.len() {
                    assert(front[i] == es[i]);
                }
            }
            if k2 == k {
                assert(es[es.len() - 1].0.deep_view() == k2);
            }
        }
        assert(entry_patched(m, e) matches Some(r) && r =~= target);
    }
}

impl<K: DeltaOps, V: DeltaOps> DeltaOps for KeyedMap<K, V> {
    type Delta = MapDelta<K, V>;

    open spec fn patched(a: Map<K::V, V::V>, d: MapDelta<K, V>) -> Option<Map<K::V, V::V>> {
        entries_patched(a, d.0@)
    }

    open spec fn is_delta(a: Map<K::V, V::V>, b: Map<K::V, V::V>, d: MapDelta<K, V>) -> bool {
        &&& keys_distinct(d.0@)
        &&& forall|i: int| 0 <= i < d.0@.len() ==> #[trigger] is_entry_delta::<K, V>(a, b, d.0@[i])
        &&& forall|k: K::V| #[trigger] a.contains_key(k) ==> key_among(d.0@, d.0@.len() as int, k)
        &&& forall|k: K::V| #[trigger] b.contains_key(k) ==> key_among(d.0@, d.0@.len() as int, k)
    }

    open spec fn is_unchanged(a: Map<K::V, V::V>, d: MapDelta<K, V>) -> bool {
        forall|i: int| 0 <= i < d.0@.len() ==> (#[trigger] d.0@[i]).1 is NoOp
    }

    open spec fn initial_model() -> Map<K::V, V::V> {
        Map::empty()
    }

    proof fn lemma_round_trip(a: Map<K::V, V::V>, b: Map<K::V, V::V>, d: MapDelta<K, V>) {
        let es = d.0@;
        lemma_entries_round_trip::<K, V>(a, b, es);
        let m = mixed(a, b, |k: K::V| key_among(es, es.len() as int, k));
        assert forall|k: K::V| !key_among(es, es.len() as int, k) implies !a.contains_key(k)
            && !b.contains_key(k) by {
        }
        assert(m =~= b);
    }

    proof fn lemma_identity(a: Map<K::V, V::V>, d: MapDelta<K, V>) {
        let es = d.0@;
        assert forall|i: int| 0 <= i < es.len() implies (#[trigger] es[i]).1 is NoOp by {
            assert(is_entry_delta::<K, V>(a, a, es[i]));
        }
        Self::lemma_round_trip(a, a, d);
    }

    fn apply_delta(&self, delta: &MapDelta<K, V>) -> (r: DeltaResult<KeyedMap<K, V>>) {
        let ghost es = delta.0@;
        let mut out = self.copy_value();
        let mut i: usize = 0;
        while i < delta.0.len()
            invariant
                i <= delta.0@.len(),
                es == delta.0@,
                entries_patched(self.deep_view(), es.take(i as int)) == Some(out.deep_view()),
            decreases delta.0@.len() - i,
        {
            assert(es.take(i + 1).drop_last() =~= es.take(i as int));
            assert(es.take(i + 1).last() == es[i as int]);
            let key = &delta.0[i].0;
            match &delta.0[i].1 {
                EntryDelta::NoOp => {},
                EntryDelta::Modify(d) => {
                    match out.get(key) {
                        Some(v) => {
                            match v.apply_delta(d) {
                                Ok(nv) => {
                                    out.insert(key.copy_value(), nv);
                                },
                                Err(e) => {
                                    proof {
                                        lemma_entries_fail_prefix::<K, V>(self.deep_view(), es, i + 1);
                                    }
                                    return Err(e);
                                },
                            }
                        },
                        None => {
                            proof {
                                lemma_entries_fail_prefix::<K, V>(self.deep_view(), es, i + 1);
                            }
                            return Err(DeltaError::ExpectedValue);
                        },
                    }
                },
                EntryDelta::Insert(v) => {
                    out.insert(key.copy_value(), v.copy_value());
                },
                EntryDelta::Remove => {
                    out.remove(key);
                },
            }
            i = i + 1;
        }
        assert(es.take(i as int) =~= es);
        Ok(out)
    }

    fn delta(&self, rhs: &KeyedMap<K, V>) -> (r: DeltaResult<MapDelta<K, V>>) {
        let ghost a = self.deep_view();
        let ghost b = rhs.deep_view();
        let ghost sa = self.entries@;
        let ghost sb = rhs.entries@;
        let mut es: Vec<(K, EntryDelta<V>)> = Vec::new();
        let mut i: usize = 0;
        while i < self.entries.len()
            invariant
                i <= sa.len(),
                sa == self.entries@,
                a == self.deep_view(),
                b == rhs.deep_view(),
                keys_distinct(es@),
                forall|j: int| 0 <= j < es@.len() ==> #[trigger] is_entry_delta::<K, V>(a, b, es@[j]),
                forall|j: int| 0 <= j < es@.len() ==> a.contains_key((#[trigger] es@[j]).0.deep_view()),
                forall|j: int| 0 <= j < es@.len() ==> last_before(sa, (#[trigger] es@[j]).0.deep_view(), i as int),
                forall|t: int| 0 <= t < i && is_last_of(sa, t, (#[trigger] sa[t]).0.deep_view()) ==> key_among(es@, es@.len() as int, sa[t].0.deep_view()),
            decreases sa.len() - i,
        {
            let key = &self.entries[i].0;
            let ghost kv = key.deep_view();
            let last = find_last(&self.entries, key);
            if last == Some(i) {
                proof {
                    lemma_pairs_map_last(sa, i as int);
                }
                let va = &self.entries[i].1;
                let e: EntryDelta<V> = match rhs.get(key) {
                    Some(vb) => {
                        if va.same_value(vb) {
                            EntryDelta::NoOp
                        } else {
                            match va.delta(vb) {
                                Ok(d) => EntryDelta::Modify(d),
                                Err(err) => return Err(err),
                            }
                        }
                    },
                    None => EntryDelta::Remove,
                };
                proof {
                    assert forall|j: int| 0 <= j < es@.len() implies (#[trigger] es@[j]).0.deep_view() != kv by {
                        let t = choose|t: int| 0 <= t < i && #[trigger] is_last_of(sa, t, es@[j].0.deep_view());
                        if es@[j].0.deep_view() == kv {
                            assert(sa[i as int].0.deep_view() == kv);
                        }
                    }
                }
                let ghost es_old = es@;
                es.push((key.copy_value(), e));
                proof {
                    assert forall|j: int| 0 <= j < es@.len() implies last_before(sa, (#[trigger] es@[j]).0.deep_view(), i + 1) by {
                        if j < es@.len() - 1 {
                            assert(es@[j] == es_old[j]);
                            assert(last_before(sa, es_old[j].0.deep_view(), i as int));
                            let t = choose|t: int| 0 <= t < i && #[trigger] is_last_of(sa, t, es@[j].0.deep_view());
                            assert(0 <= t < i + 1 && is_last_of(sa, t, es@[j].0.deep_view()));
                        } else {
                            assert(is_last_of(sa, i as int, es@[j].0.deep_view()));
                        }
                    }
                    assert forall|t: int| 0 <= t < i + 1 && is_last_of(sa, t, (#[trigger] sa[t]).0.deep_view()) implies key_among(es@, es@.len() as int, sa[t].0.deep_view()) by {
                        if t < i {
                            assert(key_among(es_old, es_old.len() as int, sa[t].0.deep_view()));
                            let j = choose|j: int| 0 <= j < es_old.len() && (#[trigger] es_old[j]).0.deep_view() == sa[t].0.deep_view();
                            assert(es@[j] == es_old[j]);
                            assert(es@[j].0.deep_view() == sa[t].0.deep_view());
                        } else {
                            assert(es@[es@.len() - 1].0.deep_view() == sa[t].0.deep_view());
                        }
                    }
                }
            } else {
                proof {
                    assert forall|t: int| 0 <= t < i + 1 && is_last_of(sa, t, (#[trigger] sa[t]).0.deep_view()) implies key_among(es@, es@.len() as int, sa[t].0.deep_view()) by {
                        if t == i {
                            assert(false);
                        }
                    }
                    assert forall|j: int| 0 <= j < es@.len() implies last_before(sa, (#[trigger] es@[j]).0.deep_view(), i + 1) by {
                        assert(last_before(sa, es@[j].0.deep_view(), i as int));
                        let t = choose|t: int| 0 <= t < i && #[trigger] is_last_of(sa, t, es@[j].0.deep_view());
                        assert(0 <= t < i + 1 && is_last_of(sa, t, es@[j].0.deep_view()));
                    }
                }
            }
            i = i + 1;
        }
        proof {
            assert forall|k: K::V| #[trigger] a.contains_key(k) implies key_among(es@, es@.len() as int, k) by {
                lemma_pairs_map_dom(sa, k);
                let j = choose|j: int| 0 <= j < sa.len() && (#[trigger] sa[j]).0.deep_view() == k;
                let t = last_index_of(sa, j);
                assert(is_last_of(sa, t, sa[t].0.deep_view()));
            }
        }
        let ghost n_a = es@.len();
        let mut i: usize = 0;
        while i < rhs.entries.len()
            invariant
                i <= sb.len(),
                sb == rhs.entries@,
                a == self.deep_view(),
                b == rhs.deep_view(),
                n_a <= es@.len(),
                keys_distinct(es@),
                forall|j: int| 0 <= j < es@.len() ==> #[trigger] is_entry_delta::<K, V>(a, b, es@[j]),
                forall|k: K::V| #[trigger] a.contains_key(k) ==> key_among(es@, es@.len() as int, k),
                forall|j: int| n_a <= j < es@.len() ==> last_before(sb, (#[trigger] es@[j]).0.deep_view(), i as int),
                forall|j: int| 0 <= j < n_a ==> a.contains_key((#[trigger] es@[j]).0.deep_view()),
                forall|j: int| n_a <= j < es@.len() ==> !a.contains_key((#[trigger] es@[j]).0.deep_view()),
                forall|t: int| 0 <= t < i && is_last_of(sb, t, (#[trigger] sb[t]).0.deep_view()) ==> key_among(es@, es@.len() as int, sb[t].0.deep_view()),
            decreases sb.len() - i,
        {
            let key = &rhs.entries[i].0;
            let ghost kv = key.deep_view();
            let last = find_last(&rhs.entries, key);
            let in_lhs = self.contains_key(key);
            if last == Some(i) && !in_lhs {
                proof {
                    lemma_pairs_map_last(sb, i as int);
                    assert forall|j: int| 0 <= j < es@.len() implies (#[trigger] es@[j]).0.deep_view() != kv by {
                        if j >= n_a {
                            let t = choose|t: int| 0 <= t < i && #[trigger] is_last_of(sb, t, es@[j].0.deep_view());
                            if es@[j].0.deep_view() == kv {
                                assert(sb[i as int].0.deep_view() == kv);
                            }
                        }
                    }
                }
                let e: EntryDelta<V> = EntryDelta::Insert(rhs.entries[i].1.copy_value());
                let ghost es_old = es@;
                es.push((key.copy_value(), e));
                proof {
                    assert(is_entry_delta::<K, V>(a, b, es@[es@.len() - 1]));
                    assert forall|k: K::V| #[trigger] a.contains_key(k) implies key_among(es@, es@.len() as int, k) by {
                        assert(key_among(es_old, es_old.len() as int, k));
                        let j = choose|j: int| 0 <= j < es_old.len() && (#[trigger] es_old[j]).0.deep_view() == k;
                        assert(es@[j] == es_old[j]);
                        assert(es@[j].0.deep_view() == k);
                    }
                    assert forall|j: int| n_a <= j < es@.len() implies last_before(sb, (#[trigger] es@[j]).0.deep_view(), i + 1) by {
                        if j < es@.len() - 1 {
                            assert(es@[j] == es_old[j]);
                            assert(last_before(sb, es_old[j].0.deep_view(), i as int));
                            let t = choose|t: int| 0 <= t < i && #[trigger] is_last_of(sb, t, es@[j].0.deep_view());
                            assert(0 <= t < i + 1 && is_last_of(sb, t, es@[j].0.deep_view()));
                        } else {
                            assert(is_last_of(sb, i as int, es@[j].0.deep_view()));
                        }
                    }
                    assert forall|t: int| 0 <= t < i + 1 && is_last_of(sb, t, (#[trigger] sb[t]).0.deep_view()) implies key_among(es@, es@.len() as int, sb[t].0.deep_view()) by {
                        if t < i {
                            assert(key_among(es_old, es_old.len() as int, sb[t].0.deep_view()));
                            let j = choose|j: int| 0 <= j < es_old.len() && (#[trigger] es_old[j]).0.deep_view() == sb[t].0.deep_view();
                            assert(es@[j] == es_old[j]);
                            assert(es@[j].0.deep_view() == sb[t].0.deep_view());
                        } else {
                            assert(es@[es@.len() - 1].0.deep_view() == sb[t].0.deep_view());
                        }
                    }
                }
            } else {
                proof {
                    assert forall|t: int| 0 <= t < i + 1 && is_last_of(sb, t, (#[trigger] sb[t]).0.deep_view()) implies key_among(es@, es@.len() as int, sb[t].0.deep_view()) by {
                        if t == i {
                            if in_lhs {
                            } else {
                                assert(false);
                            }
                        }
                    }
                    assert forall|j: int| n_a <= j < es@.len() implies last_before(sb, (#[trigger] es@[j]).0.deep_view(), i + 1) by {
                        assert(last_before(sb, es@[j].0.deep_view(), i as int));
                        let t = choose|t: int| 0 <= t < i && #[trigger] is_last_of(sb, t, es@[j].0.deep_view());
                        assert(0 <= t < i + 1 && is_last_of(sb, t, es@[j].0.deep_view()));
                    }
                }
            }
            i = i + 1;
        }
        proof {
            assert forall|k: K::V| #[trigger] b.contains_key(k) implies key_among(es@, es@.len() as int, k) by {
                if !a.contains_key(k) {
                    lemma_pairs_map_dom(sb, k);
                    let j = choose|j: int| 0 <= j < sb.len() && (#[trigger] sb[j]).0.deep_view() == k;
                    let t = last_index_of(sb, j);
                    assert(is_last_of(sb, t, sb[t].0.deep_view()));
                }
            }
        }
        Ok(MapDelta(es))
    }

    fn same_value(&self, other: &KeyedMap<K, V>) -> (r: bool) {
        let ghost a = self.deep_view();
        let ghost b = other.deep_view();
        let mut i: usize = 0;
        while i < self.entries.len()
            invariant
                i <= self.entries@.len(),
                a == self.deep_view(),
                b == other.deep_view(),
                forall|j: int| 0 <= j < i ==> a.contains_key((#[trigger] self.entries@[j]).0.deep_view())
                    && b.contains_key(self.entries@[j].0.deep_view())
                    && b[self.entries@[j].0.deep_view()] == a[self.entries@[j].0.deep_view()],
            decreases self.entries@.len() - i,
        {
            let key = &self.entries[i].0;
            proof {
                lemma_pairs_map_dom(self.entries@, key.deep_view());
            }
            let va = match self.get(key) {
                Some(va) => va,
                None => return false,
            };
            let vb = match other.get(key) {
                Some(vb) => vb,
                None => return false,
            };
            if !va.same_value(vb) {
                return false;
            }
            assert(self.entries@[i as int].0.deep_view() == key.deep_view());
            i = i + 1;
        }
        let mut i: usize = 0;
        while i < other.entries.len()
            invariant
                i <= other.entries@.len(),
                a == self.deep_view(),
                b == other.deep_view(),
                forall|j: int| 0 <= j < i ==> #[trigger] a.contains_key(other.entries@[j].0.deep_view()),
            decreases other.entries@.len() - i,
        {
            let key = &other.entries[i].0;
            if !self.contains_key(key) {
                proof {
                    lemma_pairs_map_dom(other.entries@, key.deep_view());
                }
                return false;
            }
            i = i + 1;
        }
        proof {
            assert forall|k: K::V| #[trigger] a.contains_key(k) implies b.contains_key(k) && b[k] == a[k] by {
                lemma_pairs_map_dom(self.entries@, k);
                let j = choose|j: int| 0 <= j < self.entries@.len() && (#[trigger] self.entries@[j]).0.deep_view() == k;
                assert(a.contains_key(self.entries@[j].0.deep_view()));
            }
            assert forall|k: K::V| #[trigger] b.contains_key(k) implies a.contains_key(k) by {
                lemma_pairs_map_dom(other.entries@, k);
                let j = choose|j: int| 0 <= j < other.entries@.len() && (#[trigger] other.entries@[j]).0.deep_view() == k;
                assert(a.contains_key(other.entries@[j].0.deep_view()));
            }
            assert(a =~= b);
        }
        true
    }

    fn copy_value(&self) -> (r: KeyedMap<K, V>) {
        let mut out: Vec<(K, V)> = Vec::new();
        let mut i: usize = 0;
        while i < self.entries.len()
            invariant
                i <= self.entries@.len(),
                pairs_map(out@) == pairs_map(self.entries@.take(i as int)),
            decreases self.entries@.len() - i,
        {
            assert(self.entries@.take(i + 1).drop_last() =~= self.entries@.take(i as int));
            let p = (self.entries[i].0.copy_value(), self.entries[i].1.copy_value());
            let ghost before = out@;
            out.push(p);
            assert(out@.drop_last() =~= before);
            i = i + 1;
        }
        assert(self.entries@.take(i as int) =~= self.entries@);
        KeyedMap { entries: out }
    }

    fn initial() -> (r: KeyedMap<K, V>) {
        KeyedMap::new()
    }
}

/// The last index of `s` whose key is the key of `s[j]`.
proof fn last_index_of<K: DeepView, V>(s: Seq<(K, V)>, j: int) -> (t: int)
    requires
        0 <= j < s.len(),
    ensures
        j <= t,
        is_last_of(s, t, s[j].0.deep_view()),
    decreases s.len() - j,
{
    if exists|t: int| j < t < s.len() && (#[trigger] s[t]).0.deep_view() == s[j].0.deep_view() {
        let t = choose|t: int| j < t < s.len() && (#[trigger] s[t]).0.deep_view() == s[j].0.deep_view();
        last_index_of(s, t)
    } else {
        j
    }
}

/// Entry deltas that fail on a prefix fail on the whole.
proof fn lemma_entries_fail_prefix<K: DeltaOps, V: DeltaOps>(
    m: Map<K::V, V::V>,
    es: Seq<(K, EntryDelta<V>)>,
    n: int,
)
    requires
        0 <= n <= es.len(),
        entries_patched(m, es.take(n)) is None,
    ensures
        entries_patched(m, es) is None,
    decreases es.len() - n,
{
    if n < es.len() {
        assert(es.take(n + 1).drop_last() =~= es.take(n));
        lemma_entries_fail_prefix(m, es, n + 1);
    } else {
        assert(es.take(n) =~= es);
    }
}

} // verus!
