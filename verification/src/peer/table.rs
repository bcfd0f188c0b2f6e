//! Small key/value tables for the peer's routing state, keyed by 128-bit
//! identifiers, and an id set for the live relays. Lookup is linear — the
//! tables hold a handful of services — and every operation is specified
//! against the `Map` (or `Set`) the table stands for.

use vstd::prelude::*;

verus! {

/// The map a key/value list stands for. A later entry would win; a
/// well-formed table never repeats a key.
pub open spec fn spec_table_map(s: Seq<(u128, u64)>) -> Map<u128, u64>
    decreases s.len(),
{
    if s.len() == 0 {
        Map::empty()
    } else {
        spec_table_map(s.drop_last()).insert(s.last().0, s.last().1)
    }
}

/// Each key appears at most once.
pub open spec fn spec_table_wf(s: Seq<(u128, u64)>) -> bool {
    forall|i: int, j: int|
        0 <= i < j < s.len() ==> (#[trigger] s[i]).0 != (#[trigger] s[j]).0
}

/// The table's domain is exactly its set of keys, and under well-formedness
/// each entry gives its key's value.
pub proof fn lemma_table_map(s: Seq<(u128, u64)>)
    ensures
        forall|k: u128| #[trigger] spec_table_map(s).dom().contains(k)
            <==> exists|i: int| 0 <= i < s.len() && (#[trigger] s[i]).0 == k,
        spec_table_wf(s) ==> forall|i: int| 0 <= i < s.len()
            ==> spec_table_map(s)[(#[trigger] s[i]).0] == s[i].1,
    decreases s.len(),
{
    if s.len() > 0 {
        let s0 = s.drop_last();
        lemma_table_map(s0);
        assert(spec_table_map(s) == spec_table_map(s0).insert(s.last().0, s.last().1));
        assert(spec_table_map(s).dom() =~= spec_table_map(s0).dom().insert(s.last().0));
        assert forall|k: u128| #[trigger] spec_table_map(s).dom().contains(k)
            implies exists|i: int| 0 <= i < s.len() && (#[trigger] s[i]).0 == k by {
            if k == s.last().0 {
                assert((s[s.len() - 1]).0 == k);
            } else {
                let i = choose|i: int| 0 <= i < s0.len() && (#[trigger] s0[i]).0 == k;
                assert((s[i]).0 == k);
            }
        }
        assert forall|k: u128| (exists|i: int| 0 <= i < s.len() && (#[trigger] s[i]).0 == k)
            implies #[trigger] spec_table_map(s).dom().contains(k) by {
            let i = choose|i: int| 0 <= i < s.len() && (#[trigger] s[i]).0 == k;
            if i < s.len() - 1 {
                assert((s0[i]).0 == k);
                assert(spec_table_map(s0).dom().contains(k));
            }
        }
        if spec_table_wf(s) {
            assert forall|i: int| 0 <= i < s.len()
                implies spec_table_map(s)[(#[trigger] s[i]).0] == s[i].1 by {
                if i < s.len() - 1 {
                    assert((s[i]).0 != (s[s.len() - 1]).0);
                    assert((s0[i]).0 == (s[i]).0 && (s0[i]).1 == (s[i]).1);
                    assert(spec_table_map(s0)[(s0[i]).0] == (s0[i]).1);
                }
            }
        }
    }
}

/// Overwriting the entry that holds a key is, on the map side, an insert.
proof fn lemma_table_update(s: Seq<(u128, u64)>, i: int, k: u128, v: u64)
    requires
        spec_table_wf(s),
        0 <= i < s.len(),
        s[i].0 == k,
    ensures
        spec_table_map(s.update(i, (k, v))) == spec_table_map(s).insert(k, v),
    decreases s.len(),
{
    let s2 = s.update(i, (k, v));
    if i == s.len() - 1 {
        assert(s2.drop_last() =~= s.drop_last());
        assert(spec_table_map(s2) =~= spec_table_map(s).insert(k, v));
    } else {
        let s0 = s.drop_last();
        assert(spec_table_wf(s0));
        assert(s2.drop_last() =~= s0.update(i, (k, v)));
        lemma_table_update(s0, i, k, v);
        // The overwritten key differs from the last entry's, so the two
        // inserts commute.
        assert((s[i]).0 != s.last().0);
        assert(spec_table_map(s2) =~= spec_table_map(s).insert(k, v));
    }
}

/// Removing the entry that holds a key is, on the map side, a remove.
proof fn lemma_table_remove(s: Seq<(u128, u64)>, i: int, k: u128)
    requires
        spec_table_wf(s),
        0 <= i < s.len(),
        s[i].0 == k,
    ensures
        spec_table_map(s.remove(i)) == spec_table_map(s).remove(k),
    decreases s.len(),
{
    lemma_table_map(s.drop_last());
    if i == s.len() - 1 {
        assert(s.remove(i) =~= s.drop_last());
        // The key is not among the earlier entries, so removing it from the
        // map built of them changes nothing.
        assert(!spec_table_map(s.drop_last()).dom().contains(k));
        assert(spec_table_map(s.remove(i)) =~= spec_table_map(s).remove(k));
    } else {
        let s0 = s.drop_last();
        assert(spec_table_wf(s0));
        assert(s.remove(i).drop_last() =~= s0.remove(i));
        assert(s.remove(i).last() == s.last());
        lemma_table_remove(s0, i, k);
        assert((s[i]).0 != s.last().0);
        assert(spec_table_map(s.remove(i)) =~= spec_table_map(s).remove(k));
    }
}

/// Looks a key up.
pub fn table_get(t: &Vec<(u128, u64)>, k: u128) -> (r: Option<u64>)
    requires
        spec_table_wf(t@),
    ensures
        r matches Some(v) ==> spec_table_map(t@).dom().contains(k)
            && spec_table_map(t@)[k] == v,
        r is None ==> !spec_table_map(t@).dom().contains(k),
{
    proof {
        lemma_table_map(t@);
    }
    let mut i: usize = 0;
    while i < t.len()
        invariant
            i <= t@.len(),
            forall|j: int| 0 <= j < i ==> (#[trigger] t@[j]).0 != k,
            spec_table_wf(t@),
        decreases t@.len() - i,
    {
        let e = t[i];
        if e.0 == k {
            proof {
                lemma_table_map(t@);
                assert((t@[i as int]).0 == k);
            }
            return Some(e.1);
        }
        i = i + 1;
    }
    proof {
        lemma_table_map(t@);
        if spec_table_map(t@).dom().contains(k) {
            let j = choose|j: int| 0 <= j < t@.len() && (#[trigger] t@[j]).0 == k;
            assert(false);
        }
    }
    None
}

/// Binds a key to a value, replacing any earlier binding.
pub fn table_insert(t: &mut Vec<(u128, u64)>, k: u128, v: u64)
    requires
        spec_table_wf(old(t)@),
    ensures
        spec_table_wf(final(t)@),
        spec_table_map(final(t)@) == spec_table_map(old(t)@).insert(k, v),
{
    let mut i: usize = 0;
    while i < t.len()
        invariant
            i <= t@.len(),
            forall|j: int| 0 <= j < i ==> (#[trigger] t@[j]).0 != k,
            spec_table_wf(t@),
            t@ == old(t)@,
        decreases t@.len() - i,
    {
        let e = t[i];
        if e.0 == k {
            t.set(i, (k, v));
            proof {
                assert(t@ == old(t)@.update(i as int, (k, v)));
                lemma_table_update(old(t)@, i as int, k, v);
                assert forall|a: int, b: int| 0 <= a < b < t@.len()
                    implies (#[trigger] t@[a]).0 != (#[trigger] t@[b]).0 by {
                    assert((old(t)@[a]).0 != (old(t)@[b]).0);
                }
            }
            return;
        }
        i = i + 1;
    }
    t.push((k, v));
    proof {
        assert(t@.drop_last() =~= old(t)@);
        assert forall|a: int, b: int| 0 <= a < b < t@.len()
            implies (#[trigger] t@[a]).0 != (#[trigger] t@[b]).0 by {
            if b == t@.len() - 1 {
                assert((old(t)@[a]).0 != k);
            } else {
                assert((old(t)@[a]).0 != (old(t)@[b]).0);
            }
        }
    }
}

/// Unbinds a key, returning the value it was bound to, if any.
pub fn table_remove(t: &mut Vec<(u128, u64)>, k: u128) -> (r: Option<u64>)
    requires
        spec_table_wf(old(t)@),
    ensures
        spec_table_wf(final(t)@),
        spec_table_map(final(t)@) == spec_table_map(old(t)@).remove(k),
        r matches Some(v) ==> spec_table_map(old(t)@).dom().contains(k)
            && spec_table_map(old(t)@)[k] == v,
        r is None ==> !spec_table_map(old(t)@).dom().contains(k)
            && final(t)@ == old(t)@,
{
    let mut i: usize = 0;
    while i < t.len()
        invariant
            i <= t@.len(),
            forall|j: int| 0 <= j < i ==> (#[trigger] t@[j]).0 != k,
            spec_table_wf(t@),
            t@ == old(t)@,
        decreases t@.len() - i,
    {
        let e = t[i];
        if e.0 == k {
            t.remove(i);
            proof {
                lemma_table_map(old(t)@);
                lemma_table_remove(old(t)@, i as int, k);
                assert(t@ == old(t)@.remove(i as int));
                assert forall|a: int, b: int| 0 <= a < b < t@.len()
                    implies (#[trigger] t@[a]).0 != (#[trigger] t@[b]).0 by {
                    let s = old(t)@;
                    if a < i {
                        if b < i {
                            assert(s[a].0 != s[b].0);
                        } else {
                            assert(s[a].0 != s[b + 1].0);
                        }
                    } else {
                        assert(s[a + 1].0 != s[b + 1].0);
                    }
                }
            }
            return Some(e.1);
        }
        i = i + 1;
    }
    proof {
        lemma_table_map(t@);
        if spec_table_map(t@).dom().contains(k) {
            let j = choose|j: int| 0 <= j < t@.len() && (#[trigger] t@[j]).0 == k;
            assert(false);
        }
        assert(spec_table_map(t@).remove(k) =~= spec_table_map(t@));
    }
    None
}

/// The set an id list stands for.
pub open spec fn spec_idset(s: Seq<u64>) -> Set<u64>
    decreases s.len(),
{
    if s.len() == 0 {
        Set::empty()
    } else {
        spec_idset(s.drop_last()).insert(s.last())
    }
}

/// The set is exactly the listed ids.
pub proof fn lemma_idset(s: Seq<u64>)
    ensures
        forall|x: u64| #[trigger] spec_idset(s).contains(x)
            <==> exists|i: int| 0 <= i < s.len() && s[i] == x,
    decreases s.len(),
{
    if s.len() > 0 {
        let s0 = s.drop_last();
        lemma_idset(s0);
        assert(spec_idset(s) == spec_idset(s0).insert(s.last()));
        assert forall|x: u64| #[trigger] spec_idset(s).contains(x)
            implies exists|i: int| 0 <= i < s.len() && s[i] == x by {
            if x == s.last() {
                assert(s[s.len() - 1] == x);
            } else {
                let i = choose|i: int| 0 <= i < s0.len() && s0[i] == x;
                assert(s[i] == x);
            }
        }
        assert forall|x: u64| (exists|i: int| 0 <= i < s.len() && s[i] == x)
            implies #[trigger] spec_idset(s).contains(x) by {
            let i = choose|i: int| 0 <= i < s.len() && s[i] == x;
            if i < s.len() - 1 {
                assert(s0[i] == x);
            }
        }
    }
}

/// Membership in an id set.
pub fn idset_contains(t: &Vec<u64>, x: u64) -> (r: bool)
    ensures
        r == spec_idset(t@).contains(x),
{
    proof {
        lemma_idset(t@);
    }
    let mut i: usize = 0;
    while i < t.len()
        invariant
            i <= t@.len(),
            forall|j: int| 0 <= j < i ==> t@[j] != x,
        decreases t@.len() - i,
    {
        if t[i] == x {
            proof {
                lemma_idset(t@);
                assert(t@[i as int] == x);
            }
            return true;
        }
        i = i + 1;
    }
    proof {
        lemma_idset(t@);
        if spec_idset(t@).contains(x) {
            let j = choose|j: int| 0 <= j < t@.len() && t@[j] == x;
            assert(false);
        }
    }
    false
}

/// Adds an id; adding one already present changes nothing.
pub fn idset_insert(t: &mut Vec<u64>, x: u64)
    ensures
        spec_idset(final(t)@) == spec_idset(old(t)@).insert(x),
{
    if idset_contains(t, x) {
        proof {
            assert(spec_idset(t@).insert(x) =~= spec_idset(t@));
        }
    } else {
        t.push(x);
        proof {
            assert(t@.drop_last() =~= old(t)@);
        }
    }
}

/// Drops an id, wherever it is listed.
pub fn idset_remove(t: &mut Vec<u64>, x: u64)
    ensures
        spec_idset(final(t)@) == spec_idset(old(t)@).remove(x),
{
    let mut r: Vec<u64> = Vec::new();
    let mut i: usize = 0;
    while i < t.len()
        invariant
            i <= t@.len(),
            spec_idset(r@) == spec_idset(t@.take(i as int)).remove(x),
        decreases t@.len() - i,
    {
        let e = t[i];
        let ghost r0 = r@;
        proof {
            assert(t@.take(i as int + 1).drop_last() =~= t@.take(i as int));
        }
        if e != x {
            r.push(e);
            proof {
                assert(r@.drop_last() =~= r0);
            }
        }
        proof {
            assert(spec_idset(r@) =~= spec_idset(t@.take(i as int + 1)).remove(x));
        }
        i = i + 1;
    }
    proof {
        assert(t@.take(t@.len() as int) =~= t@);
    }
    *t = r;
}

} // verus!
