//! Position-keyed lookup tables, kept as plain vectors of entries with
//! unique keys, viewed in specifications as `Map<Position, V>` and
//! `Set<Position>`.  The map layers are built on these.

use vstd::prelude::*;

use crate::utils::Position;

verus! {

/// The map that an entry list denotes; a later entry for a key wins.
pub open spec fn assoc_map<V>(s: Seq<(Position, V)>) -> Map<Position, V>
    decreases s.len(),
{
    if s.len() == 0 {
        Map::empty()
    } else {
        assoc_map(s.drop_last()).insert(s.last().0, s.last().1)
    }
}

/// No two entries share a key.
pub open spec fn unique_keys<V>(s: Seq<(Position, V)>) -> bool {
    forall|i: int, j: int| 0 <= i < j < s.len() ==> s[i].0 != s[j].0
}

/// A key is in the denoted map exactly when some entry carries it.
pub proof fn lemma_assoc_map_contains<V>(s: Seq<(Position, V)>, p: Position)
    ensures
        assoc_map(s).contains_key(p) <==> (exists|i: int| 0 <= i < s.len() && s[i].0 == p),
    decreases s.len(),
{
    if s.len() > 0 {
        lemma_assoc_map_contains(s.drop_last(), p);
        if s.last().0 == p {
            assert(s[s.len() - 1].0 == p);
        } else {
            if assoc_map(s).contains_key(p) {
                let i = choose|i: int| 0 <= i < s.drop_last().len() && s.drop_last()[i].0 == p;
                assert(s[i].0 == p);
            }
            if exists|i: int| 0 <= i < s.len() && s[i].0 == p {
                let i = choose|i: int| 0 <= i < s.len() && s[i].0 == p;
                assert(i < s.len() - 1);
                assert(s.drop_last()[i].0 == p);
            }
        }
    }
}

/// Under unique keys, each entry is what the denoted map holds for its key.
pub proof fn lemma_assoc_map_index<V>(s: Seq<(Position, V)>, i: int)
    requires
        unique_keys(s),
        0 <= i < s.len(),
    ensures
        assoc_map(s).contains_key(s[i].0),
        assoc_map(s)[s[i].0] == s[i].1,
    decreases s.len(),
{
    if i == s.len() - 1 {
        assert(s.last() == s[i]);
    } else {
        assert(s[i].0 != s.last().0);
        assert(s.drop_last()[i] == s[i]);
        lemma_assoc_map_index(s.drop_last(), i);
    }
}

/// Under unique keys, dropping the entry at `i` removes exactly its key
/// from the denoted map.
pub proof fn lemma_assoc_map_remove<V>(s: Seq<(Position, V)>, i: int)
    requires
        unique_keys(s),
        0 <= i < s.len(),
    ensures
        unique_keys(s.remove(i)),
        assoc_map(s.remove(i)) == assoc_map(s).remove(s[i].0),
    decreases s.len(),
{
    s.remove_ensures(i);
    assert(unique_keys(s.remove(i))) by {
        assert forall|a: int, b: int| 0 <= a < b < s.remove(i).len() implies s.remove(i)[a].0 != s.remove(
            i,
        )[b].0 by {
            let a0 = if a < i { a } else { a + 1 };
            let b0 = if b < i { b } else { b + 1 };
            assert(s.remove(i)[a] == s[a0] && s.remove(i)[b] == s[b0]);
        }
    }
    if i == s.len() - 1 {
        assert(s.remove(i) =~= s.drop_last());
        lemma_assoc_map_contains(s.drop_last(), s[i].0);
        assert(forall|j: int| 0 <= j < s.drop_last().len() ==> s.drop_last()[j] == s[j]);
        assert(!assoc_map(s.drop_last()).contains_key(s[i].0));
        assert(assoc_map(s.drop_last()) =~= assoc_map(s).remove(s[i].0));
    } else {
        lemma_assoc_map_remove(s.drop_last(), i);
        assert(s.remove(i).last() == s.last());
        assert(s.remove(i).drop_last() =~= s.drop_last().remove(i));
        assert(s.drop_last()[i] == s[i]);
        assert(s[i].0 != s.last().0);
        assert(assoc_map(s.remove(i)) == assoc_map(s.drop_last().remove(i)).insert(
            s.last().0,
            s.last().1,
        ));
        assert(assoc_map(s.drop_last()).remove(s[i].0).insert(s.last().0, s.last().1)
            =~= assoc_map(s).remove(s[i].0));
    }
}

/// Appending an entry inserts its key into the denoted map.
pub proof fn lemma_assoc_map_push<V>(s: Seq<(Position, V)>, p: Position, v: V)
    ensures
        assoc_map(s.push((p, v))) == assoc_map(s).insert(p, v),
{
    assert(s.push((p, v)).drop_last() =~= s);
    assert(s.push((p, v)).last() == (p, v));
}

/// The index of the entry carrying `p`, if one does.
pub fn assoc_find<V>(s: &Vec<(Position, V)>, p: Position) -> (r: Option<usize>)
    ensures
        (r matches Some(i) ==> i < s@.len() && s@[i as int].0 == p),
        (r is None ==> forall|i: int| 0 <= i < s@.len() ==> s@[i].0 != p),
{
    let mut i: usize = 0;
    while i < s.len()
        invariant
            i <= s@.len(),
            forall|j: int| 0 <= j < i ==> s@[j].0 != p,
        decreases s@.len() - i,
    {
        if s[i].0 == p {
            return Some(i);
        }
        i = i + 1;
    }
    None
}

/// A borrow of the value stored under `p`, if any.
pub fn assoc_get<'a, V>(s: &'a Vec<(Position, V)>, p: Position) -> (r: Option<&'a V>)
    requires
        unique_keys(s@),
    ensures
        (r is Some <==> assoc_map(s@).contains_key(p)),
        (r matches Some(v) ==> assoc_map(s@)[p] == *v),
{
    proof {
        lemma_assoc_map_contains(s@, p);
    }
    match assoc_find(s, p) {
        Some(i) => {
            proof {
                lemma_assoc_map_index(s@, i as int);
            }
            Some(&s[i].1)
        }
        None => None,
    }
}

/// Store `v` under `p`, replacing what was there.
pub fn assoc_insert<V>(s: &mut Vec<(Position, V)>, p: Position, v: V)
    requires
        unique_keys(old(s)@),
    ensures
        unique_keys(final(s)@),
        assoc_map(final(s)@) == assoc_map(old(s)@).insert(p, v),
        final(s)@.len() <= old(s)@.len() + 1,
{
    let ghost s0 = s@;
    match assoc_find(s, p) {
        Some(i) => {
            proof {
                lemma_assoc_map_remove(s0, i as int);
            }
            s.remove(i);
            let ghost s1 = s@;
            s.push((p, v));
            proof {
                lemma_assoc_map_push(s1, p, v);
                lemma_assoc_map_contains(s1, p);
                assert(forall|a: int| 0 <= a < s1.len() ==> s1[a].0 != p) by {
                    assert(unique_keys(s1));
                    assert(!assoc_map(s1).contains_key(p));
                    lemma_assoc_map_contains(s1, p);
                }
                assert(unique_keys(s@));
                assert(assoc_map(s0).remove(p).insert(p, v) =~= assoc_map(s0).insert(p, v));
            }
        }
        None => {
            s.push((p, v));
            proof {
                lemma_assoc_map_push(s0, p, v);
                assert(unique_keys(s@));
            }
        }
    }
}

/// Delete the entry stored under `p`, if any.
pub fn assoc_remove<V>(s: &mut Vec<(Position, V)>, p: Position)
    requires
        unique_keys(old(s)@),
    ensures
        unique_keys(final(s)@),
        assoc_map(final(s)@) == assoc_map(old(s)@).remove(p),
        final(s)@.len() <= old(s)@.len(),
{
    let ghost s0 = s@;
    match assoc_find(s, p) {
        Some(i) => {
            proof {
                lemma_assoc_map_remove(s0, i as int);
            }
            s.remove(i);
        }
        None => {
            proof {
                lemma_assoc_map_contains(s0, p);
                assert(assoc_map(s0).remove(p) =~= assoc_map(s0));
            }
        }
    }
}

/// A position list is in specifications the set of its elements.
pub open spec fn pos_set(s: Seq<Position>) -> Set<Position> {
    s.to_set()
}

/// Whether the list holds `p`.
pub fn pos_contains(s: &Vec<Position>, p: Position) -> (r: bool)
    ensures
        r <==> pos_set(s@).contains(p),
{
    let mut i: usize = 0;
    while i < s.len()
        invariant
            i <= s@.len(),
            forall|j: int| 0 <= j < i ==> s@[j] != p,
        decreases s@.len() - i,
    {
        if s[i] == p {
            return true;
        }
        i = i + 1;
    }
    proof {
        assert(!s@.contains(p));
    }
    false
}

/// Add `p` to the list unless already present.
pub fn pos_set_insert(s: &mut Vec<Position>, p: Position)
    requires
        old(s)@.no_duplicates(),
    ensures
        final(s)@.no_duplicates(),
        pos_set(final(s)@) == pos_set(old(s)@).insert(p),
{
    let ghost s0 = s@;
    if !pos_contains(s, p) {
        s.push(p);
        proof {
            assert(s@.no_duplicates()) by {
                assert(forall|j: int| 0 <= j < s0.len() ==> s0[j] != p);
                assert(forall|j: int| 0 <= j < s0.len() ==> s@[j] == s0[j]);
            }
            assert(forall|x: Position| s@.contains(x) <==> (s0.contains(x) || x == p)) by {
                assert(forall|j: int| 0 <= j < s0.len() ==> s@[j] == s0[j]);
                assert(s@[s0.len() as int] == p);
                assert(forall|j: int| 0 <= j < s@.len() && j != s0.len() ==> s@[j] == s0[j]);
            }
            assert(pos_set(s@) =~= pos_set(s0).insert(p));
        }
    } else {
        proof {
            assert(pos_set(s@) =~= pos_set(s0).insert(p));
        }
    }
}

/// Drop `p` from the list, if present.
pub fn pos_set_remove(s: &mut Vec<Position>, p: Position)
    requires
        old(s)@.no_duplicates(),
    ensures
        final(s)@.no_duplicates(),
        pos_set(final(s)@) == pos_set(old(s)@).remove(p),
{
    let ghost s0 = s@;
    let mut i: usize = 0;
    while i < s.len()
        invariant
            s@ == s0,
            s0 == old(s)@,
            s0.no_duplicates(),
            i <= s0.len(),
            forall|j: int| 0 <= j < i ==> s0[j] != p,
        decreases s0.len() - i,
    {
        if s[i] == p {
            proof {
                s0.remove_ensures(i as int);
            }
            s.remove(i);
            proof {
                assert(s@.no_duplicates()) by {
                    assert forall|a: int, b: int| 0 <= a < b < s@.len() implies s@[a] != s@[b] by {
                        let a0 = if a < i { a } else { a + 1 };
                        let b0 = if b < i { b } else { b + 1 };
                        assert(s@[a] == s0[a0] && s@[b] == s0[b0]);
                    }
                }
                assert(forall|x: Position| s@.contains(x) <==> (s0.contains(x) && x != p)) by {
                    assert forall|x: Position| s@.contains(x) implies (s0.contains(x) && x != p) by {
                        let j = choose|j: int| 0 <= j < s@.len() && s@[j] == x;
                        let j0 = if j < i { j } else { j + 1 };
                        assert(s0[j0] == x);
                        assert(j0 != i);
                    }
                    assert forall|x: Position| s0.contains(x) && x != p implies s@.contains(x) by {
                        let j0 = choose|j0: int| 0 <= j0 < s0.len() && s0[j0] == x;
                        let j = if j0 < i { j0 } else { j0 - 1 };
                        assert(j0 != i);
                        assert(s@[j] == x);
                    }
                }
                assert(pos_set(s@) =~= pos_set(s0).remove(p));
            }
            return ;
        }
        i = i + 1;
    }
    proof {
        assert(!s0.contains(p));
        assert(pos_set(s@) =~= pos_set(s0).remove(p));
    }
}

} // verus!
