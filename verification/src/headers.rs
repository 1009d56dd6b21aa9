//! Additional request headers: a map from header names to values, kept as a
//! list in which no name occurs twice.

use vstd::prelude::*;

verus! {

/// The map that a list of name-value pairs stands for; where a name occurs
/// twice, the later pair counts.
pub open spec fn pairs_map(pairs: Seq<(String, String)>) -> Map<Seq<char>, Seq<char>>
    decreases pairs.len(),
{
    if pairs.len() == 0 {
        Map::empty()
    } else {
        pairs_map(pairs.drop_last()).insert(pairs.last().0@, pairs.last().1@)
    }
}

/// Whether no name occurs twice in `pairs`.
pub open spec fn distinct_names(pairs: Seq<(String, String)>) -> bool {
    forall|i: int, j: int| 0 <= i < j < pairs.len() ==> pairs[i].0@ != pairs[j].0@
}

/// In a list without repeated names, the map holds exactly the listed names,
/// each with the value listed beside it.
pub proof fn lemma_pairs_map(pairs: Seq<(String, String)>)
    requires
        distinct_names(pairs),
    ensures
        forall|k: Seq<char>| #[trigger]
            pairs_map(pairs).contains_key(k) <==> exists|i: int|
                0 <= i < pairs.len() && #[trigger] pairs[i].0@ == k,
        forall|i: int|
            0 <= i < pairs.len() ==> pairs_map(pairs).contains_key(#[trigger] pairs[i].0@)
                && pairs_map(pairs)[pairs[i].0@] == pairs[i].1@,
    decreases pairs.len(),
{
    if pairs.len() > 0 {
        let front = pairs.drop_last();
        lemma_pairs_map(front);
        assert forall|k: Seq<char>| #[trigger]
            pairs_map(pairs).contains_key(k) implies exists|i: int|
            0 <= i < pairs.len() && #[trigger] pairs[i].0@ == k by {
            if k == pairs.last().0@ {
                assert(pairs[pairs.len() - 1].0@ == k);
            } else {
                assert(pairs_map(front).contains_key(k));
                let i = choose|i: int| 0 <= i < front.len() && #[trigger] front[i].0@ == k;
                assert(pairs[i] == front[i]);
            }
        }
        assert forall|k: Seq<char>|
            (exists|i: int|
                0 <= i < pairs.len() && #[trigger] pairs[i].0@ == k) implies #[trigger] pairs_map(
            pairs,
        ).contains_key(k) by {
            let i = choose|i: int| 0 <= i < pairs.len() && #[trigger] pairs[i].0@ == k;
            if i < front.len() {
                assert(front[i].0@ == k);
            }
        }
        assert forall|i: int| 0 <= i < pairs.len() implies pairs_map(pairs).contains_key(
            #[trigger] pairs[i].0@,
        ) && pairs_map(pairs)[pairs[i].0@] == pairs[i].1@ by {
            if i < front.len() {
                assert(front[i].0@ == pairs[i].0@);
                assert(pairs[i].0@ != pairs[pairs.len() - 1].0@);
            }
        }
    }
}

/// Request headers by name.
#[derive(Debug)]
pub struct Headers {
    entries: Vec<(String, String)>,
}

impl View for Headers {
    type V = Map<Seq<char>, Seq<char>>;

    closed spec fn view(&self) -> Map<Seq<char>, Seq<char>> {
        pairs_map(self.entries@)
    }
}

impl Clone for Headers {
    fn clone(&self) -> (r: Headers)
        ensures
            r@ == self@,
            r.count() == self.count(),
    {
        proof {
            use_type_invariant(self);
        }
        let mut entries: Vec<(String, String)> = Vec::new();
        let mut i: usize = 0;
        while i < self.entries.len()
            invariant
                i <= self.entries.len(),
                entries@ == self.entries@.subrange(0, i as int),
            decreases self.entries.len() - i,
        {
            let name = self.entries[i].0.clone();
            let value = self.entries[i].1.clone();
            entries.push((name, value));
            assert(entries@ == self.entries@.subrange(0, i + 1));
            i = i + 1;
        }
        assert(entries@ == self.entries@);
        Headers { entries }
    }
}

impl Headers {
    #[verifier::type_invariant]
    spec fn well_formed(&self) -> bool {
        distinct_names(self.entries@)
    }

    /// How many headers are set.
    pub closed spec fn count(&self) -> nat {
        self.entries@.len()
    }

    /// How many headers are set.
    pub fn len(&self) -> (r: usize)
        ensures
            r == self.count(),
    {
        self.entries.len()
    }

    /// No headers.
    pub fn new() -> (r: Headers)
        ensures
            r@ == Map::<Seq<char>, Seq<char>>::empty(),
            r.count() == 0,
    {
        Headers { entries: Vec::new() }
    }

    /// The position of `name` in the list, if it is there.
    fn position(&self, name: &String) -> (r: Option<usize>)
        ensures
            match r {
                Some(i) => i < self.entries.len() && self.entries[i as int].0@ == name@,
                None => forall|i: int| 0 <= i < self.entries.len() ==> self.entries[i].0@ != name@,
            },
    {
        let mut i: usize = 0;
        while i < self.entries.len()
            invariant
                i <= self.entries.len(),
                forall|j: int| 0 <= j < i ==> self.entries[j].0@ != name@,
            decreases self.entries.len() - i,
        {
            if self.entries[i].0 == *name {
                return Some(i);
            }
            i = i + 1;
        }
        None
    }

    /// Whether a header called `name` is set.
    pub fn contains_key(&self, name: &str) -> (r: bool)
        ensures
            r == self@.contains_key(name@),
    {
        proof {
            use_type_invariant(self);
            lemma_pairs_map(self.entries@);
        }
        let wanted = String::from_str(name);
        self.position(&wanted).is_some()
    }

    /// Sets the header `name` to `value`, in place of any earlier value.
    pub fn insert(&mut self, name: String, value: String)
        ensures
            final(self)@ == old(self)@.insert(name@, value@),
    {
        proof {
            use_type_invariant(&*self);
            lemma_pairs_map(self.entries@);
        }
        let ghost before = self.entries@;
        let at = self.position(&name);
        let mut taken = Headers::new();
        std::mem::swap(self, &mut taken);
        let mut entries = taken.entries;
        match at {
            Some(i) => {
                entries.set(i, (name, value));
                proof {
                    let after = entries@;
                    assert(distinct_names(after)) by {
                        assert forall|a: int, b: int| 0 <= a < b < after.len() implies after[a].0@
                            != after[b].0@ by {
                            assert(after[a].0@ == before[a].0@);
                            assert(after[b].0@ == before[b].0@);
                        }
                    }
                    lemma_pairs_map(after);
                    assert forall|k: Seq<char>| #[trigger]
                        pairs_map(after).contains_key(k) <==> pairs_map(before).insert(
                            name@,
                            value@,
                        ).contains_key(k) by {
                        if pairs_map(after).contains_key(k) {
                            let j = choose|j: int| 0 <= j < after.len() && #[trigger] after[j].0@ == k;
                            assert(before[j].0@ == k);
                        }
                        if pairs_map(before).contains_key(k) {
                            let j = choose|j: int|
                                0 <= j < before.len() && #[trigger] before[j].0@ == k;
                            assert(after[j].0@ == k);
                        }
                        if k == name@ {
                            assert(after[i as int].0@ == k);
                        }
                    }
                    assert forall|k: Seq<char>| #[trigger]
                        pairs_map(after).contains_key(k) implies pairs_map(after)[k] == pairs_map(
                        before,
                    ).insert(name@, value@)[k] by {
                        let j = choose|j: int| 0 <= j < after.len() && #[trigger] after[j].0@ == k;
                        if j != i {
                            assert(before[j].0@ == k);
                            assert(after[j].1@ == before[j].1@);
                        }
                    }
                    assert(pairs_map(after) =~= pairs_map(before).insert(name@, value@));
                }
            },
            None => {
                entries.push((name, value));
                proof {
                    let after = entries@;
                    assert(after.drop_last() == before);
                    assert(distinct_names(after)) by {
                        assert forall|a: int, b: int| 0 <= a < b < after.len() implies after[a].0@
                            != after[b].0@ by {
                            assert(after[a] == before[a]);
                            if b < before.len() {
                                assert(after[b] == before[b]);
                            }
                        }
                    }
                }
            },
        }
        *self = Headers { entries };
    }

    /// Sets every header of `other`, each in place of any earlier value under
    /// the same name.
    pub fn extend(&mut self, other: Headers)
        ensures
            final(self)@ == old(self)@.union_prefer_right(other@),
    {
        let ghost start = self@;
        let mut i: usize = 0;
        while i < other.entries.len()
            invariant
                i <= other.entries.len(),
                self@ == start.union_prefer_right(pairs_map(other.entries@.subrange(0, i as int))),
            decreases other.entries.len() - i,
        {
            proof {
                let taken = other.entries@.subrange(0, i + 1);
                assert(taken.drop_last() == other.entries@.subrange(0, i as int));
                assert(taken.last() == other.entries@[i as int]);
                let sofar = pairs_map(other.entries@.subrange(0, i as int));
                let k = other.entries@[i as int].0@;
                let v = other.entries@[i as int].1@;
                assert(start.union_prefer_right(sofar).insert(k, v) =~= start.union_prefer_right(
                    sofar.insert(k, v),
                ));
            }
            let name = other.entries[i].0.clone();
            let value = other.entries[i].1.clone();
            self.insert(name, value);
            i = i + 1;
        }
        proof {
            assert(other.entries@.subrange(0, i as int) == other.entries@);
            assert(start.union_prefer_right(Map::<Seq<char>, Seq<char>>::empty()) =~= start);
        }
    }

    /// The headers as a list of pairs in which no name occurs twice.
    pub fn pairs(&self) -> (r: &Vec<(String, String)>)
        ensures
            distinct_names(r@),
            pairs_map(r@) == self@,
            r@.len() == self.count(),
    {
        proof {
            use_type_invariant(self);
        }
        &self.entries
    }
}

} // verus!
