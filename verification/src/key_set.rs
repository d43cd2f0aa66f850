//! An ordered set of row ids — the set of text keys a widget state
//! holds (which rows are expanded), kept in ascending text order with
//! no id twice, and iterated in that order.

use vstd::prelude::*;
use crate::key::{
    lemma_text_lt_irreflexive, lemma_text_lt_total, lemma_text_lt_transitive, owned, str_eq,
    str_lt, text_lt,
};

verus! {

/// The text of each id, in order.
pub open spec fn texts(v: Seq<String>) -> Seq<Seq<char>> {
    v.map_values(|s: String| s@)
}

/// Every id precedes every later one in text order.
pub open spec fn strictly_sorted(v: Seq<Seq<char>>) -> bool {
    forall|i: int, j: int| 0 <= i < j < v.len() ==> text_lt(#[trigger] v[i], #[trigger] v[j])
}

/// A set of ids in ascending text order.
#[derive(Debug, PartialEq, Eq)]
pub struct KeySet {
    items: Vec<String>,
}

impl KeySet {
    /// The ids, in ascending order.
    pub closed spec fn seq(self) -> Seq<Seq<char>> {
        texts(self.items@)
    }

    /// The set of ids held.
    pub open spec fn set(self) -> Set<Seq<char>> {
        Set::new(|t: Seq<char>| self.seq().contains(t))
    }

    #[verifier::type_invariant]
    spec fn sorted(self) -> bool {
        strictly_sorted(texts(self.items@))
    }

    /// The empty set.
    pub fn new() -> (r: Self)
        ensures
            r.seq() == Seq::<Seq<char>>::empty(),
            r.set() == Set::<Seq<char>>::empty(),
    {
        let r = KeySet { items: Vec::new() };
        assert(r.seq() =~= Seq::<Seq<char>>::empty());
        assert(r.set() =~= Set::<Seq<char>>::empty());
        r
    }

    /// How many ids are held.
    pub fn len(&self) -> (r: usize)
        ensures
            r == self.seq().len(),
            strictly_sorted(self.seq()),
    {
        proof {
            use_type_invariant(self);
        }
        self.items.len()
    }

    /// Whether no id is held.
    pub fn is_empty(&self) -> (r: bool)
        ensures
            r == (self.seq().len() == 0),
    {
        self.items.len() == 0
    }

    /// The id at position `i` in ascending order.
    pub fn get(&self, i: usize) -> (r: &str)
        requires
            i < self.seq().len(),
        ensures
            r@ == self.seq()[i as int],
            strictly_sorted(self.seq()),
    {
        proof {
            use_type_invariant(self);
        }
        self.items[i].as_str()
    }

    /// The position of `id`'s slot: the first index whose id is not
    /// below `id`, and whether that id is `id` itself.
    fn locate(&self, id: &str) -> (r: (usize, bool))
        ensures
            r.0 <= self.seq().len(),
            forall|i: int| 0 <= i < r.0 ==> text_lt(#[trigger] self.seq()[i], id@),
            r.0 < self.seq().len() ==> !text_lt(self.seq()[r.0 as int], id@),
            r.1 == (r.0 < self.seq().len() && self.seq()[r.0 as int] == id@),
    {
        let n = self.items.len();
        let mut i: usize = 0;
        while i < n
            invariant
                i <= n,
                n == self.seq().len(),
                forall|k: int| 0 <= k < i ==> text_lt(#[trigger] self.seq()[k], id@),
            decreases n - i,
        {
            let cur = self.items[i].as_str();
            if !str_lt(cur, id) {
                return (i, str_eq(cur, id));
            }
            i = i + 1;
        }
        (n, false)
    }

    /// Whether `id` is held.
    pub fn contains(&self, id: &str) -> (r: bool)
        ensures
            r == self.set().contains(id@),
    {
        proof {
            use_type_invariant(self);
        }
        let (p, found) = self.locate(id);
        proof {
            if !found && self.seq().contains(id@) {
                let k = choose|k: int| 0 <= k < self.seq().len() && self.seq()[k] == id@;
                lemma_text_lt_irreflexive(id@);
                if k >= p as int && p < self.seq().len() {
                    if k > p as int {
                        lemma_text_lt_total(self.seq()[p as int], id@);
                        lemma_text_lt_total(id@, self.seq()[p as int]);
                        assert(text_lt(self.seq()[p as int], self.seq()[k]));
                    }
                }
            }
        }
        found
    }

    /// Adds `id`. Returns whether it was absent.
    pub fn insert(&mut self, id: &str) -> (r: bool)
        ensures
            r == !old(self).set().contains(id@),
            final(self).set() == old(self).set().insert(id@),
    {
        proof {
            use_type_invariant(&*self);
        }
        let (p, found) = self.locate(id);
        if found {
            proof {
                assert(self.set() =~= old(self).set().insert(id@));
            }
            return false;
        }
        let ghost before = self.seq();
        proof {
            lemma_text_lt_irreflexive(id@);
            if p < before.len() {
                lemma_text_lt_total(before[p as int], id@);
            }
            assert forall|j: int| p <= j < before.len() implies text_lt(id@, #[trigger] before[j]) by {
                if j > p {
                    lemma_text_lt_transitive(id@, before[p as int], before[j]);
                }
            }
            assert(!before.contains(id@)) by {
                if before.contains(id@) {
                    let k = choose|k: int| 0 <= k < before.len() && before[k] == id@;
                    if k < p {
                        assert(text_lt(before[k], id@));
                    } else {
                        assert(text_lt(id@, before[k]));
                    }
                }
            }
        }
        let mut items: Vec<String> = Vec::new();
        std::mem::swap(&mut items, &mut self.items);
        assert(texts(items@) == before);
        items.insert(p, owned(id));
        proof {
            let after = texts(items@);
            assert(after =~= before.insert(p as int, id@));
            assert forall|i: int, j: int| 0 <= i < j < after.len() implies text_lt(
                #[trigger] after[i],
                #[trigger] after[j],
            ) by {
                if j < p {
                } else if j == p {
                } else if i < p {
                    lemma_text_lt_transitive(after[i], id@, after[j]);
                } else if i == p {
                } else {
                    assert(after[i] == before[i - 1] && after[j] == before[j - 1]);
                }
            }
        }
        self.items = items;
        proof {
            let after = self.seq();
            assert(self.set() =~= old(self).set().insert(id@)) by {
                assert forall|t: Seq<char>| self.set().contains(t) <==> old(self).set().insert(id@).contains(t) by {
                    if after.contains(t) {
                        let k = choose|k: int| 0 <= k < after.len() && after[k] == t;
                        if k < p {
                            assert(before[k] == t);
                        } else if k > p {
                            assert(before[k - 1] == t);
                        }
                    }
                    if before.contains(t) {
                        let k = choose|k: int| 0 <= k < before.len() && before[k] == t;
                        if k < p {
                            assert(after[k] == t);
                        } else {
                            assert(after[k + 1] == t);
                        }
                    }
                    if t == id@ {
                        assert(after[p as int] == t);
                    }
                }
            }
        }
        true
    }

    /// Removes `id`. Returns whether it was present.
    pub fn remove(&mut self, id: &str) -> (r: bool)
        ensures
            r == old(self).set().contains(id@),
            final(self).set() == old(self).set().remove(id@),
    {
        proof {
            use_type_invariant(&*self);
        }
        let present = self.contains(id);
        if !present {
            proof {
                assert(self.set() =~= old(self).set().remove(id@));
            }
            return false;
        }
        let (p, found) = self.locate(id);
        let ghost before = self.seq();
        proof {
            assert(found) by {
                let k = choose|k: int| 0 <= k < before.len() && before[k] == id@;
                lemma_text_lt_irreflexive(id@);
                if k < p {
                    assert(text_lt(before[k], id@));
                } else if k > p {
                    lemma_text_lt_total(before[p as int], id@);
                    assert(text_lt(before[p as int], before[k]));
                }
            }
        }
        let mut items: Vec<String> = Vec::new();
        std::mem::swap(&mut items, &mut self.items);
        assert(texts(items@) == before);
        items.remove(p);
        proof {
            let after = texts(items@);
            assert(after =~= before.remove(p as int));
            assert forall|i: int, j: int| 0 <= i < j < after.len() implies text_lt(
                #[trigger] after[i],
                #[trigger] after[j],
            ) by {
                let bi = if i < p { i } else { i + 1 };
                let bj = if j < p { j } else { j + 1 };
                assert(after[i] == before[bi] && after[j] == before[bj]);
            }
        }
        self.items = items;
        proof {
            let after = self.seq();
            assert(self.set() =~= old(self).set().remove(id@)) by {
                assert forall|t: Seq<char>| self.set().contains(t) <==> old(self).set().remove(id@).contains(t) by {
                    lemma_text_lt_irreflexive(id@);
                    if after.contains(t) {
                        let k = choose|k: int| 0 <= k < after.len() && after[k] == t;
                        let bk = if k < p { k } else { k + 1 };
                        assert(before[bk] == t);
                        if k < p {
                            assert(text_lt(before[k], before[p as int]));
                        } else {
                            assert(text_lt(before[p as int], before[k + 1]));
                        }
                    }
                    if before.contains(t) && t != id@ {
                        let k = choose|k: int| 0 <= k < before.len() && before[k] == t;
                        if k < p {
                            assert(after[k] == t);
                        } else {
                            assert(k != p);
                            assert(after[k - 1] == t);
                        }
                    }
                }
            }
        }
        true
    }
}

impl Clone for KeySet {
    fn clone(&self) -> (r: Self)
        ensures
            r.seq() == self.seq(),
    {
        proof {
            use_type_invariant(self);
        }
        let n = self.items.len();
        let mut items: Vec<String> = Vec::new();
        let mut i: usize = 0;
        while i < n
            invariant
                i <= n,
                n == self.items@.len(),
                texts(items@) == texts(self.items@).subrange(0, i as int),
            decreases n - i,
        {
            let c = owned(self.items[i].as_str());
            let ghost prev = items@;
            items.push(c);
            assert(items@ =~= prev.push(c));
            assert(texts(items@) =~= texts(prev).push(c@));
            assert(texts(self.items@)[i as int] == self.items@[i as int]@);
            assert(texts(self.items@).subrange(0, i + 1) =~= texts(self.items@).subrange(0, i as int).push(
                texts(self.items@)[i as int],
            ));
            i = i + 1;
        }
        assert(texts(self.items@).subrange(0, n as int) =~= texts(self.items@));
        KeySet { items }
    }
}

impl Default for KeySet {
    fn default() -> (r: Self)
        ensures
            r.set() == Set::<Seq<char>>::empty(),
    {
        KeySet::new()
    }
}

} // verus!
