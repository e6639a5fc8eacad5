//! A small verified keyed store: an association vector from string keys to
//! values, holding at most one entry per key, viewed as a finite map.

use vstd::pervasive::VecAdditionalExecFns;
use vstd::prelude::*;

verus! {

/// Maps each string key to the last value stored under it. The caches of a
/// chain worker and the registry of running chains are built on it.
pub struct KeyedStore<V> {
    entries: Vec<(String, V)>,
}

/// The map described by an association sequence; a later entry wins, though
/// the store never keeps two entries under one key.
spec fn assoc_map<V>(s: Seq<(String, V)>) -> Map<Seq<char>, V>
    decreases s.len(),
{
    if s.len() == 0 {
        Map::empty()
    } else {
        assoc_map(s.drop_last()).insert(s.last().0@, s.last().1)
    }
}

/// Whether an association sequence carries pairwise distinct keys.
spec fn distinct_keys<V>(s: Seq<(String, V)>) -> bool {
    forall|i: int, j: int| 0 <= i < j < s.len() ==> s[i].0@ != s[j].0@
}

/// The association map holds, under each key, the value at that key's latest
/// position in the sequence.
proof fn lemma_assoc_last_occurrence<V>(s: Seq<(String, V)>, i: int, k: Seq<char>)
    requires
        0 <= i < s.len(),
        s[i].0@ == k,
        forall|j: int| i < j < s.len() ==> s[j].0@ != k,
    ensures
        assoc_map(s).contains_key(k),
        assoc_map(s)[k] == s[i].1,
    decreases s.len(),
{
    if i < s.len() - 1 {
        assert(s.drop_last()[i] == s[i]);
        lemma_assoc_last_occurrence(s.drop_last(), i, k);
    }
}

/// A key carried by no entry is absent from the association map.
proof fn lemma_assoc_absent<V>(s: Seq<(String, V)>, k: Seq<char>)
    requires
        forall|j: int| 0 <= j < s.len() ==> s[j].0@ != k,
    ensures
        !assoc_map(s).contains_key(k),
    decreases s.len(),
{
    if s.len() > 0 {
        lemma_assoc_absent(s.drop_last(), k);
    }
}

/// With distinct keys, the association map holds exactly the entries of the
/// sequence, each under its own key.
proof fn lemma_assoc_characterization<V>(s: Seq<(String, V)>)
    requires
        distinct_keys(s),
    ensures
        forall|i: int| 0 <= i < s.len() ==> #[trigger] assoc_map(s).contains_key(s[i].0@),
        forall|i: int| 0 <= i < s.len() ==> assoc_map(s)[#[trigger] s[i].0@] == s[i].1,
        forall|k: Seq<char>|
            #[trigger] assoc_map(s).contains_key(k) ==> exists|i: int|
                0 <= i < s.len() && s[i].0@ == k,
    decreases s.len(),
{
    if s.len() > 0 {
        assert(distinct_keys(s.drop_last())) by {
            assert forall|i: int, j: int|
                0 <= i < j < s.drop_last().len() implies s.drop_last()[i].0@
                != s.drop_last()[j].0@ by {
                assert(s.drop_last()[i] == s[i]);
                assert(s.drop_last()[j] == s[j]);
            }
        }
        lemma_assoc_characterization(s.drop_last());
        assert forall|i: int| 0 <= i < s.len() implies #[trigger] assoc_map(s).contains_key(
            s[i].0@,
        ) by {
            if i < s.len() - 1 {
                assert(s.drop_last()[i] == s[i]);
                assert(assoc_map(s.drop_last()).contains_key(s.drop_last()[i].0@));
            }
        }
        assert forall|i: int| 0 <= i < s.len() implies assoc_map(s)[#[trigger] s[i].0@]
            == s[i].1 by {
            if i < s.len() - 1 {
                assert(s.drop_last()[i] == s[i]);
                assert(assoc_map(s.drop_last())[s.drop_last()[i].0@] == s.drop_last()[i].1);
                assert(s[i].0@ != s[s.len() - 1].0@);
            }
        }
        assert forall|k: Seq<char>| #[trigger] assoc_map(s).contains_key(k) implies exists|i: int|
            0 <= i < s.len() && s[i].0@ == k by {
            if k != s.last().0@ {
                assert(assoc_map(s.drop_last()).contains_key(k));
                let i = choose|i: int| 0 <= i < s.drop_last().len() && s.drop_last()[i].0@ == k;
                assert(s[i].0@ == k);
            } else {
                assert(s[s.len() - 1].0@ == k);
            }
        }
    }
}

/// With distinct keys, the association map is finite and exactly as long as
/// the sequence.
proof fn lemma_assoc_len<V>(s: Seq<(String, V)>)
    requires
        distinct_keys(s),
    ensures
        assoc_map(s).dom().finite(),
        assoc_map(s).len() == s.len(),
    decreases s.len(),
{
    if s.len() > 0 {
        assert(distinct_keys(s.drop_last())) by {
            assert forall|i: int, j: int|
                0 <= i < j < s.drop_last().len() implies s.drop_last()[i].0@
                != s.drop_last()[j].0@ by {
                assert(s.drop_last()[i] == s[i]);
                assert(s.drop_last()[j] == s[j]);
            }
        }
        lemma_assoc_len(s.drop_last());
        assert forall|j: int| 0 <= j < s.len() - 1 implies s[j].0@ != s.last().0@ by {
            assert(s.drop_last()[j] == s[j]);
        }
        lemma_assoc_absent(s.drop_last(), s.last().0@);
    }
}

impl<V> View for KeyedStore<V> {
    type V = Map<Seq<char>, V>;

    closed spec fn view(&self) -> Map<Seq<char>, V> {
        assoc_map(self.entries@)
    }
}

impl<V> KeyedStore<V> {
    #[verifier::type_invariant]
    spec fn wf(&self) -> bool {
        distinct_keys(self.entries@)
    }

    /// Creates an empty store.
    pub fn new() -> (r: KeyedStore<V>)
        ensures
            r@ == Map::<Seq<char>, V>::empty(),
    {
        KeyedStore { entries: Vec::new() }
    }

    /// The number of keys held.
    pub fn len(&self) -> (n: usize)
        ensures
            n == self@.len(),
            self@.dom().finite(),
    {
        proof {
            use_type_invariant(&*self);
            lemma_assoc_len(self.entries@);
        }
        self.entries.len()
    }

    /// The value held under the given key, if any.
    pub fn get<'a>(&'a self, k: &String) -> (r: Option<&'a V>)
        ensures
            match r {
                Some(v) => self@.contains_key(k@) && *v == self@[k@],
                None => !self@.contains_key(k@),
            },
    {
        proof {
            use_type_invariant(&*self);
        }
        let n = self.entries.len();
        let mut i: usize = 0;
        while i < n
            invariant
                n == self.entries.len(),
                i <= n,
                distinct_keys(self.entries@),
                forall|j: int| 0 <= j < i ==> self.entries@[j].0@ != k@,
            decreases n - i,
        {
            if self.entries[i].0 == *k {
                proof {
                    let se = self.entries@;
                    assert forall|j: int| (i as int) < j < se.len() implies se[j].0@ != k@ by {
                        assert(se[i as int].0@ != se[j].0@);
                    }
                    lemma_assoc_last_occurrence(se, i as int, k@);
                }
                return Some(&self.entries[i].1);
            }
            i += 1;
        }
        proof {
            lemma_assoc_absent(self.entries@, k@);
        }
        None
    }

    /// Whether the given key is held.
    pub fn contains_key(&self, k: &String) -> (r: bool)
        ensures
            r == self@.contains_key(k@),
    {
        self.get(k).is_some()
    }

    /// Stores the value under the given key, replacing any value held there.
    pub fn insert(&mut self, k: String, v: V)
        ensures
            final(self)@ == old(self)@.insert(k@, v),
    {
        proof {
            use_type_invariant(&*self);
        }
        let ghost s0 = self.entries@;
        let idx = find_index(&self.entries, &k);
        let mut es: Vec<(String, V)> = Vec::new();
        core::mem::swap(&mut es, &mut self.entries);
        let ghost kv = k@;
        match idx {
            Some(i) => {
                es.set(i, (k, v));
                proof {
                    assert(distinct_keys(es@)) by {
                        assert forall|p: int, q: int|
                            0 <= p < q < es@.len() implies es@[p].0@ != es@[q].0@ by {
                            assert(s0[p].0@ != s0[q].0@);
                            assert(es@[p].0@ == s0[p].0@);
                            assert(es@[q].0@ == s0[q].0@);
                        }
                    }
                    lemma_assoc_characterization(s0);
                    lemma_assoc_characterization(es@);
                    assert forall|k2: Seq<char>|
                        assoc_map(es@).contains_key(k2) implies assoc_map(s0).insert(
                        kv,
                        v,
                    ).contains_key(k2) && assoc_map(es@)[k2] == assoc_map(s0).insert(kv, v)[k2] by {
                        let j = choose|j: int| 0 <= j < es@.len() && es@[j].0@ == k2;
                        assert(assoc_map(es@)[es@[j].0@] == es@[j].1);
                        if k2 == kv {
                            if j != i {
                                assert(es@[j].0@ == s0[j].0@);
                                assert(s0[j].0@ != s0[i as int].0@);
                                assert(false);
                            }
                        } else {
                            assert(j != i as int);
                            assert(es@[j] == s0[j]);
                            assert(assoc_map(s0)[s0[j].0@] == s0[j].1);
                            assert(assoc_map(s0).contains_key(s0[j].0@));
                        }
                    }
                    assert forall|k2: Seq<char>|
                        assoc_map(s0).insert(kv, v).contains_key(k2) implies assoc_map(
                        es@,
                    ).contains_key(k2) by {
                        if k2 == kv {
                            assert(es@[i as int].0@ == kv);
                            assert(assoc_map(es@).contains_key(es@[i as int].0@));
                        } else {
                            let j = choose|j: int| 0 <= j < s0.len() && s0[j].0@ == k2;
                            assert(j != i as int);
                            assert(es@[j].0@ == k2);
                            assert(assoc_map(es@).contains_key(es@[j].0@));
                        }
                    }
                    assert(assoc_map(es@) =~= assoc_map(s0).insert(kv, v));
                }
            },
            None => {
                es.push((k, v));
                proof {
                    assert(es@.drop_last() =~= s0);
                    assert(distinct_keys(es@)) by {
                        assert forall|p: int, q: int|
                            0 <= p < q < es@.len() implies es@[p].0@ != es@[q].0@ by {
                            if q < es@.len() - 1 {
                                assert(s0[p].0@ != s0[q].0@);
                            } else {
                                assert(es@[p].0@ == s0[p].0@);
                            }
                        }
                    }
                    assert(assoc_map(es@) == assoc_map(s0).insert(kv, v));
                }
            },
        }
        core::mem::swap(&mut es, &mut self.entries);
    }

    /// Takes the value held under the given key out of the store, leaving
    /// the other keys untouched.
    pub fn remove(&mut self, k: &String) -> (r: Option<V>)
        ensures
            final(self)@ == old(self)@.remove(k@),
            match r {
                Some(v) => old(self)@.contains_key(k@) && v == old(self)@[k@],
                None => !old(self)@.contains_key(k@),
            },
    {
        proof {
            use_type_invariant(&*self);
        }
        let ghost s0 = self.entries@;
        let idx = find_index(&self.entries, k);
        match idx {
            Some(i) => {
                proof {
                    assert forall|j: int| (i as int) < j < s0.len() implies s0[j].0@ != k@ by {
                        assert(s0[i as int].0@ != s0[j].0@);
                    }
                    lemma_assoc_last_occurrence(s0, i as int, k@);
                }
                let mut es: Vec<(String, V)> = Vec::new();
                core::mem::swap(&mut es, &mut self.entries);
                let pair = es.swap_remove(i);
                proof {
                    lemma_swap_removed_assoc(s0, i as int);
                }
                core::mem::swap(&mut es, &mut self.entries);
                Some(pair.1)
            },
            None => {
                proof {
                    lemma_assoc_absent(s0, k@);
                    assert(assoc_map(s0) =~= assoc_map(s0).remove(k@));
                }
                None
            },
        }
    }
}

/// Finds the position of the entry carrying the given key, if any.
fn find_index<V>(es: &Vec<(String, V)>, k: &String) -> (r: Option<usize>)
    ensures
        match r {
            Some(i) => i < es@.len() && es@[i as int].0@ == k@,
            None => forall|j: int| 0 <= j < es@.len() ==> es@[j].0@ != k@,
        },
{
    let n = es.len();
    let mut i: usize = 0;
    while i < n
        invariant
            n == es@.len(),
            i <= n,
            forall|j: int| 0 <= j < i ==> es@[j].0@ != k@,
        decreases n - i,
    {
        if es[i].0 == *k {
            return Some(i);
        }
        i += 1;
    }
    None
}

/// Removing the entry at a distinct-keyed position by swapping in the last
/// entry removes exactly that key from the association map.
proof fn lemma_swap_removed_assoc<V>(s: Seq<(String, V)>, i: int)
    requires
        distinct_keys(s),
        0 <= i < s.len(),
    ensures
        distinct_keys(s.update(i, s.last()).drop_last()),
        assoc_map(s.update(i, s.last()).drop_last()) == assoc_map(s).remove(s[i].0@),
{
    let t = s.update(i, s.last()).drop_last();
    let k = s[i].0@;
    assert forall|p: int, q: int| 0 <= p < q < t.len() implies t[p].0@ != t[q].0@ by {
        let sp: int = if p == i { s.len() - 1 } else { p };
        let sq: int = if q == i { s.len() - 1 } else { q };
        assert(t[p] == s[sp]);
        assert(t[q] == s[sq]);
        if sp < sq {
            assert(s[sp].0@ != s[sq].0@);
        } else {
            assert(s[sq].0@ != s[sp].0@);
        }
    }
    lemma_assoc_characterization(s);
    lemma_assoc_characterization(t);
    assert forall|k2: Seq<char>|
        assoc_map(t).contains_key(k2) implies assoc_map(s).remove(k).contains_key(k2) && assoc_map(
        t,
    )[k2] == assoc_map(s).remove(k)[k2] by {
        let j = choose|j: int| 0 <= j < t.len() && t[j].0@ == k2;
        assert(assoc_map(t)[t[j].0@] == t[j].1);
        let sj: int = if j == i { s.len() - 1 } else { j };
        assert(t[j] == s[sj]);
        assert(assoc_map(s)[s[sj].0@] == s[sj].1);
        assert(assoc_map(s).contains_key(s[sj].0@));
        assert(sj != i);
        if sj < i {
            assert(s[sj].0@ != s[i].0@);
        } else {
            assert(s[i].0@ != s[sj].0@);
        }
        assert(k2 != k);
    }
    assert forall|k2: Seq<char>|
        assoc_map(s).remove(k).contains_key(k2) implies assoc_map(t).contains_key(k2) by {
        assert(assoc_map(s).contains_key(k2));
        let j = choose|j: int| 0 <= j < s.len() && s[j].0@ == k2;
        assert(j != i);
        let tj: int = if j == s.len() - 1 { i } else { j };
        if j == s.len() - 1 && i == s.len() - 1 {
            assert(false);
        }
        if tj < t.len() {
            assert(t[tj] == s[j]);
            assert(assoc_map(t).contains_key(t[tj].0@));
        } else {
            assert(false);
        }
    }
    assert(assoc_map(t) =~= assoc_map(s).remove(k));
}

} // verus!
