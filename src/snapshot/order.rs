//! The order of snapshots: by time, then by origin, whatever they carry.
use vstd::prelude::*;
use vstd::string::StrSliceExecFns;
use std::cmp::Ordering;
use crate::snapshot::clock::Timestamp;

verus! {

/// The lexicographic order of two strings, character by character.
pub open spec fn lex_cmp(a: Seq<char>, b: Seq<char>) -> Ordering
    decreases a.len(),
{
    if a.len() == 0 {
        if b.len() == 0 {
            Ordering::Equal
        } else {
            Ordering::Less
        }
    } else if b.len() == 0 {
        Ordering::Greater
    } else if a[0] == b[0] {
        lex_cmp(a.drop_first(), b.drop_first())
    } else if (a[0] as u32) < (b[0] as u32) {
        Ordering::Less
    } else {
        Ordering::Greater
    }
}

/// The order of two points in time.
pub open spec fn timestamp_cmp(a: Timestamp, b: Timestamp) -> Ordering {
    if a.secs < b.secs {
        Ordering::Less
    } else if a.secs > b.secs {
        Ordering::Greater
    } else if a.nanos < b.nanos {
        Ordering::Less
    } else if a.nanos > b.nanos {
        Ordering::Greater
    } else {
        Ordering::Equal
    }
}

/// The order of two snapshots: by time, then by origin.
pub open spec fn snapshot_cmp(ta: Timestamp, oa: Seq<char>, tb: Timestamp, ob: Seq<char>) -> Ordering {
    match timestamp_cmp(ta, tb) {
        Ordering::Equal => lex_cmp(oa, ob),
        o => o,
    }
}

proof fn lemma_lex_cmp_step(a: Seq<char>, b: Seq<char>, i: int)
    requires
        0 <= i < a.len(),
        i < b.len(),
        a[i] == b[i],
    ensures
        lex_cmp(a.skip(i), b.skip(i)) == lex_cmp(a.skip(i + 1), b.skip(i + 1)),
{
    assert(a.skip(i).drop_first() =~= a.skip(i + 1));
    assert(b.skip(i).drop_first() =~= b.skip(i + 1));
}

proof fn lemma_lex_cmp_equal_iff(a: Seq<char>, b: Seq<char>)
    ensures
        lex_cmp(a, b) == Ordering::Equal <==> a == b,
    decreases a.len(),
{
    if a.len() > 0 && b.len() > 0 {
        lemma_lex_cmp_equal_iff(a.drop_first(), b.drop_first());
        if a == b {
            assert(a.drop_first() == b.drop_first());
        }
        if a[0] == b[0] && a.drop_first() == b.drop_first() {
            assert forall|i: int| 0 <= i < a.len() implies a[i] == b[i] by {
                if i > 0 {
                    assert(a[i] == a.drop_first()[i - 1]);
                    assert(b[i] == b.drop_first()[i - 1]);
                }
            }
            assert(a =~= b);
        }
    } else if a.len() == 0 && b.len() == 0 {
        assert(a =~= b);
    }
}

/// Compares two strings lexicographically, character by character.
pub fn compare_strings(a: &String, b: &String) -> (r: Ordering)
    ensures
        r == lex_cmp(a@, b@),
        r == Ordering::Equal <==> a@ == b@,
{
    proof {
        lemma_lex_cmp_equal_iff(a@, b@);
    }
    let sa = a.as_str();
    let sb = b.as_str();
    let la = sa.unicode_len();
    let lb = sb.unicode_len();
    let mut i: usize = 0;
    assert(a@.skip(0) =~= a@ && b@.skip(0) =~= b@);
    while i < la && i < lb
        invariant
            sa@ == a@,
            sb@ == b@,
            la == a@.len(),
            lb == b@.len(),
            i <= la,
            i <= lb,
            lex_cmp(a@, b@) == lex_cmp(a@.skip(i as int), b@.skip(i as int)),
        decreases la - i,
    {
        let ca = sa.get_char(i);
        let cb = sb.get_char(i);
        assert(a@.skip(i as int)[0] == ca && b@.skip(i as int)[0] == cb);
        if ca != cb {
            if (ca as u32) < (cb as u32) {
                return Ordering::Less;
            } else {
                return Ordering::Greater;
            }
        }
        proof {
            lemma_lex_cmp_step(a@, b@, i as int);
        }
        i = i + 1;
    }
    if la == i && lb == i {
        Ordering::Equal
    } else if la == i {
        Ordering::Less
    } else {
        Ordering::Greater
    }
}

/// Compares two snapshot keys: time first, then origin.
pub fn compare_snapshots(ta: Timestamp, oa: &String, tb: Timestamp, ob: &String) -> (r: Ordering)
    ensures
        r == snapshot_cmp(ta, oa@, tb, ob@),
{
    if ta.secs < tb.secs {
        Ordering::Less
    } else if ta.secs > tb.secs {
        Ordering::Greater
    } else if ta.nanos < tb.nanos {
        Ordering::Less
    } else if ta.nanos > tb.nanos {
        Ordering::Greater
    } else {
        compare_strings(oa, ob)
    }
}

} // verus!
