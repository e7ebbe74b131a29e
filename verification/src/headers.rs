//! The headers that go with every request.

use crate::text::same_text;
use vstd::prelude::*;

verus! {

/// The name and value of a header, as characters.
pub open spec fn pair_view(pair: (String, String)) -> (Seq<char>, Seq<char>) {
    (pair.0@, pair.1@)
}

/// [`pair_view`] of each.
pub open spec fn pairs_view(pairs: Seq<(String, String)>) -> Seq<(Seq<char>, Seq<char>)> {
    pairs.map_values(|pair: (String, String)| pair_view(pair))
}

/// No name stands twice.
pub open spec fn names_differ(pairs: Seq<(Seq<char>, Seq<char>)>) -> bool {
    forall|i: int, j: int|
        0 <= i < pairs.len() && 0 <= j < pairs.len() && i != j ==> (#[trigger] pairs[i]).0 != (
        #[trigger] pairs[j]).0
}

/// One of the pairs has this name.
pub open spec fn has_name(pairs: Seq<(Seq<char>, Seq<char>)>, name: Seq<char>) -> bool {
    exists|i: int| 0 <= i < pairs.len() && (#[trigger] pairs[i]).0 == name
}

/// The value that stands with a name.
pub open spec fn value_of(pairs: Seq<(Seq<char>, Seq<char>)>, name: Seq<char>) -> Seq<char> {
    pairs[choose|i: int| 0 <= i < pairs.len() && (#[trigger] pairs[i]).0 == name].1
}

/// The pairs as a map from name to value.
pub open spec fn pairs_map(pairs: Seq<(Seq<char>, Seq<char>)>) -> Map<Seq<char>, Seq<char>> {
    Map::new(|name: Seq<char>| has_name(pairs, name), |name: Seq<char>| value_of(pairs, name))
}

/// Header names with their values. A name stands once; names that differ in
/// case are different names.
#[derive(Debug)]
pub struct HeaderMap {
    entries: Vec<(String, String)>,
}

impl View for HeaderMap {
    type V = Map<Seq<char>, Seq<char>>;

    open spec fn view(&self) -> Map<Seq<char>, Seq<char>> {
        pairs_map(self.pairs())
    }
}

impl HeaderMap {
    /// The names and values in the order in which the names came.
    pub closed spec fn pairs(&self) -> Seq<(Seq<char>, Seq<char>)> {
        pairs_view(self.entries@)
    }

    #[verifier::type_invariant]
    spec fn well_formed(self) -> bool {
        names_differ(pairs_view(self.entries@))
    }

    /// A map without headers.
    pub fn new() -> (r: HeaderMap)
        ensures
            r@ == Map::<Seq<char>, Seq<char>>::empty(),
            r.pairs() == Seq::<(Seq<char>, Seq<char>)>::empty(),
    {
        let r = HeaderMap { entries: Vec::new() };
        assert(r.pairs() =~= Seq::<(Seq<char>, Seq<char>)>::empty());
        assert(r@ =~= Map::<Seq<char>, Seq<char>>::empty());
        r
    }

    /// The headers in the order in which the names came; none stands twice.
    pub fn entries(&self) -> (r: &Vec<(String, String)>)
        ensures
            pairs_view(r@) == self.pairs(),
            names_differ(self.pairs()),
    {
        proof {
            use_type_invariant(self);
        }
        &self.entries
    }

    /// The position of a name.
    fn position(&self, name: &str) -> (r: Option<usize>)
        ensures
            match r {
                Some(i) => i < self.pairs().len() && self.pairs()[i as int].0 == name@,
                None => !has_name(self.pairs(), name@),
            },
    {
        let mut i: usize = 0;
        while i < self.entries.len()
            invariant
                i <= self.entries@.len(),
                forall|j: int| 0 <= j < i ==> (#[trigger] self.pairs()[j]).0 != name@,
            decreases self.entries@.len() - i,
        {
            if same_text(self.entries[i].0.as_str(), name) {
                return Some(i);
            }
            i += 1;
        }
        None
    }

    /// The value of a header.
    pub fn get(&self, name: &str) -> (r: Option<&String>)
        ensures
            match r {
                Some(value) => self@.contains_key(name@) && self@[name@] == value@,
                None => !self@.contains_key(name@),
            },
    {
        proof {
            use_type_invariant(self);
        }
        match self.position(name) {
            Some(i) => {
                proof {
                    assert(has_name(self.pairs(), name@));
                    assert(self.pairs()[i as int].1 == self.entries@[i as int].1@);
                }
                Some(&self.entries[i].1)
            },
            None => None,
        }
    }

    /// Sets a header: its value changes where the name is known, and else it
    /// comes last.
    pub fn insert(&mut self, name: String, value: String)
        ensures
            final(self)@ == old(self)@.insert(name@, value@),
            !old(self)@.contains_key(name@) ==> final(self).pairs() == old(self).pairs().push(
                (name@, value@),
            ),
            old(self)@.contains_key(name@) ==> {
                &&& final(self).pairs().len() == old(self).pairs().len()
                &&& forall|i: int|
                    0 <= i < old(self).pairs().len() ==> #[trigger] final(self).pairs()[i] == (
                        old(self).pairs()[i].0,
                        if old(self).pairs()[i].0 == name@ {
                            value@
                        } else {
                            old(self).pairs()[i].1
                        },
                    )
            },
    {
        proof {
            use_type_invariant(&*self);
        }
        let ghost before = self.pairs();
        let ghost name_text = name@;
        let ghost value_text = value@;
        let found = self.position(name.as_str());
        let mut entries: Vec<(String, String)> = Vec::new();
        std::mem::swap(&mut entries, &mut self.entries);
        match found {
            Some(i) => {
                entries.set(i, (name, value));
                proof {
                    assert(pairs_view(entries@) =~= before.update(
                        i as int,
                        (name_text, value_text),
                    ));
                }
            },
            None => {
                entries.push((name, value));
                proof {
                    assert(pairs_view(entries@) =~= before.push((name_text, value_text)));
                }
            },
        }
        proof {
            let after = pairs_view(entries@);
            assert(names_differ(after));
            assert(pairs_map(after) =~= pairs_map(before).insert(name_text, value_text)) by {
                lemma_set(before, after, name_text, value_text);
            }
        }
        self.entries = entries;
    }
}

impl Clone for HeaderMap {
    fn clone(&self) -> (r: HeaderMap)
        ensures
            r.pairs() == self.pairs(),
    {
        proof {
            use_type_invariant(self);
        }
        let mut entries: Vec<(String, String)> = Vec::new();
        let mut i: usize = 0;
        while i < self.entries.len()
            invariant
                i <= self.entries@.len(),
                pairs_view(entries@) == self.pairs().take(i as int),
            decreases self.entries@.len() - i,
        {
            let ghost before = entries@;
            entries.push((self.entries[i].0.clone(), self.entries[i].1.clone()));
            proof {
                assert(pairs_view(entries@) =~= pairs_view(before).push(self.pairs()[i as int]));
                assert(self.pairs().take(i as int).push(self.pairs()[i as int])
                    =~= self.pairs().take(i + 1));
            }
            i += 1;
        }
        proof {
            assert(self.pairs().take(self.entries@.len() as int) =~= self.pairs());
        }
        HeaderMap { entries }
    }
}

/// Setting a header changes the map in that name alone.
proof fn lemma_set(
    before: Seq<(Seq<char>, Seq<char>)>,
    after: Seq<(Seq<char>, Seq<char>)>,
    name: Seq<char>,
    value: Seq<char>,
)
    requires
        names_differ(before),
        names_differ(after),
        has_name(before, name) ==> exists|i: int|
            0 <= i < before.len() && (#[trigger] before[i]).0 == name && after == before.update(
                i,
                (name, value),
            ),
        !has_name(before, name) ==> after == before.push((name, value)),
    ensures
        pairs_map(after) == pairs_map(before).insert(name, value),
{
    let at = if has_name(before, name) {
        choose|i: int|
            0 <= i < before.len() && (#[trigger] before[i]).0 == name && after == before.update(
                i,
                (name, value),
            )
    } else {
        before.len() as int
    };
    assert(after[at] == (name, value));
    assert forall|n: Seq<char>|
        #![trigger pairs_map(after).contains_key(n)]
        pairs_map(after).contains_key(n) == pairs_map(before).insert(name, value).contains_key(
            n,
        ) by {
        if has_name(before, n) {
            let i = choose|i: int| 0 <= i < before.len() && (#[trigger] before[i]).0 == n;
            assert(after[i].0 == n);
        }
        if has_name(after, n) && n != name {
            let i = choose|i: int| 0 <= i < after.len() && (#[trigger] after[i]).0 == n;
            assert(before[i].0 == n);
        }
    }
    assert forall|n: Seq<char>| #[trigger]
        pairs_map(after).contains_key(n) implies pairs_map(after)[n] == pairs_map(before).insert(
        name,
        value,
    )[n] by {
        let i = choose|i: int| 0 <= i < after.len() && (#[trigger] after[i]).0 == n;
        if n == name {
            assert(i == at);
        } else {
            assert(before[i] == after[i]);
            assert(has_name(before, n));
            let k = choose|k: int| 0 <= k < before.len() && (#[trigger] before[k]).0 == n;
            assert(k == i);
        }
    }
    assert(pairs_map(after) =~= pairs_map(before).insert(name, value));
}

// ---------------------------------------------------------------------------
// Laws
// ---------------------------------------------------------------------------

/// The headers as a map hold every pair under its name, and nothing else.
pub proof fn header_maps_hold_the_pairs(
    pairs: Seq<(Seq<char>, Seq<char>)>,
    name: Seq<char>,
    value: Seq<char>,
)
    requires
        forall|i: int, j: int|
            0 <= i < j < pairs.len() ==> (#[trigger] pairs[i]).0 != (#[trigger] pairs[j]).0,
    ensures
        pairs_map(pairs).contains_key(name) && pairs_map(pairs)[name] == value <==> pairs.contains(
            (name, value),
        ),
{
    if pairs.contains((name, value)) {
        let i = choose|i: int| 0 <= i < pairs.len() && pairs[i] == (name, value);
        assert(pairs[i].0 == name);
        let k = choose|k: int| 0 <= k < pairs.len() && (#[trigger] pairs[k]).0 == name;
        assert(k == i);
    }
    if pairs_map(pairs).contains_key(name) && pairs_map(pairs)[name] == value {
        let k = choose|k: int| 0 <= k < pairs.len() && (#[trigger] pairs[k]).0 == name;
        assert(pairs[k] == (name, value));
    }
}

/// The pairs of strings are seen as their characters, one for one.
pub proof fn pairs_are_those_of_the_strings(pairs: Seq<(String, String)>)
    ensures
        pairs_view(pairs).len() == pairs.len(),
        forall|i: int|
            0 <= i < pairs.len() ==> #[trigger] pairs_view(pairs)[i] == (pairs[i].0@, pairs[i].1@),
{
}

} // verus!
