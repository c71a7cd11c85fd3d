//! The tags of a log that the format does not know, each with its value.

use vstd::pervasive::VecAdditionalExecFns;
use vstd::prelude::*;
use vstd::string::StringExecFns;

verus! {

/// The name of pair `i`.
pub open spec fn name_at(pairs: Seq<(String, String)>, i: int) -> Seq<char> {
    pairs[i].0@
}

/// Whether a pair has the name `name`.
pub open spec fn has_name(pairs: Seq<(String, String)>, name: Seq<char>) -> bool {
    exists|i: int| 0 <= i < pairs.len() && #[trigger] name_at(pairs, i) == name
}

/// The place of a pair that has the name `name`.
pub open spec fn place_of(pairs: Seq<(String, String)>, name: Seq<char>) -> int {
    choose|i: int| 0 <= i < pairs.len() && #[trigger] name_at(pairs, i) == name
}

/// Whether no two pairs have the same name.
pub open spec fn distinct_names(pairs: Seq<(String, String)>) -> bool {
    forall|i: int, j: int|
        0 <= i < j < pairs.len() ==> #[trigger] name_at(pairs, i) != #[trigger] name_at(pairs, j)
}

/// The map from each name to the value that it is paired with.
pub open spec fn pairs_map(pairs: Seq<(String, String)>) -> Map<Seq<char>, Seq<char>> {
    Map::new(
        |name: Seq<char>| has_name(pairs, name),
        |name: Seq<char>| pairs[place_of(pairs, name)].1@,
    )
}

/// Among distinct names, a name is found where it stands.
proof fn lemma_place(pairs: Seq<(String, String)>, i: int)
    requires
        distinct_names(pairs),
        0 <= i < pairs.len(),
    ensures
        has_name(pairs, name_at(pairs, i)),
        place_of(pairs, name_at(pairs, i)) == i,
        pairs_map(pairs).contains_key(name_at(pairs, i)),
        pairs_map(pairs)[name_at(pairs, i)] == pairs[i].1@,
{
    let name = name_at(pairs, i);
    let found = place_of(pairs, name);
    assert(0 <= found < pairs.len() && name_at(pairs, found) == name);
    if found < i {
        assert(name_at(pairs, found) != name_at(pairs, i));
    } else if i < found {
        assert(name_at(pairs, i) != name_at(pairs, found));
    }
}

/// A new value for a name that is there takes the place of the old one.
proof fn lemma_replace(pairs: Seq<(String, String)>, i: int, name: String, value: String)
    requires
        distinct_names(pairs),
        0 <= i < pairs.len(),
        name_at(pairs, i) == name@,
    ensures
        distinct_names(pairs.update(i, (name, value))),
        pairs_map(pairs.update(i, (name, value))) == pairs_map(pairs).insert(name@, value@),
{
    let after = pairs.update(i, (name, value));
    assert forall|k: int| 0 <= k < pairs.len() implies #[trigger] name_at(after, k) == name_at(
        pairs,
        k,
    ) by {}
    assert(distinct_names(after)) by {
        assert forall|a: int, b: int| 0 <= a < b < after.len() implies #[trigger] name_at(
            after,
            a,
        ) != #[trigger] name_at(after, b) by {
            assert(name_at(pairs, a) != name_at(pairs, b));
        }
    }
    let want = pairs_map(pairs).insert(name@, value@);
    assert forall|n: Seq<char>| pairs_map(after).contains_key(n) <==> want.contains_key(n) by {
        if has_name(after, n) {
            let k = place_of(after, n);
            assert(name_at(pairs, k) == n);
        }
        if has_name(pairs, n) {
            let k = place_of(pairs, n);
            assert(name_at(after, k) == n);
        }
        if n == name@ {
            assert(name_at(after, i) == n);
        }
    }
    assert forall|n: Seq<char>| pairs_map(after).contains_key(n) implies pairs_map(after)[n]
        == want[n] by {
        let k = place_of(after, n);
        assert(name_at(after, k) == n);
        lemma_place(after, k);
        lemma_place(pairs, k);
    }
    assert(pairs_map(after) =~= want);
}

/// A name that is not there yet goes to the end with its value.
proof fn lemma_append(pairs: Seq<(String, String)>, name: String, value: String)
    requires
        distinct_names(pairs),
        !has_name(pairs, name@),
    ensures
        distinct_names(pairs.push((name, value))),
        pairs_map(pairs.push((name, value))) == pairs_map(pairs).insert(name@, value@),
{
    let after = pairs.push((name, value));
    let last = pairs.len() as int;
    assert forall|k: int| 0 <= k < pairs.len() implies #[trigger] name_at(after, k) == name_at(
        pairs,
        k,
    ) by {}
    assert(name_at(after, last) == name@);
    assert(distinct_names(after)) by {
        assert forall|a: int, b: int| 0 <= a < b < after.len() implies #[trigger] name_at(
            after,
            a,
        ) != #[trigger] name_at(after, b) by {
            if b < last {
                assert(name_at(pairs, a) != name_at(pairs, b));
            } else {
                assert(name_at(pairs, a) != name@);
            }
        }
    }
    let want = pairs_map(pairs).insert(name@, value@);
    assert forall|n: Seq<char>| pairs_map(after).contains_key(n) <==> want.contains_key(n) by {
        if has_name(after, n) {
            let k = place_of(after, n);
            if k < last {
                assert(name_at(pairs, k) == n);
            }
        }
        if has_name(pairs, n) {
            let k = place_of(pairs, n);
            assert(name_at(after, k) == n);
        }
    }
    assert forall|n: Seq<char>| pairs_map(after).contains_key(n) implies pairs_map(after)[n]
        == want[n] by {
        let k = place_of(after, n);
        assert(name_at(after, k) == n);
        lemma_place(after, k);
        if k < last {
            lemma_place(pairs, k);
        }
    }
    assert(pairs_map(after) =~= want);
}

/// Where `name` stands among `pairs`.
fn find(pairs: &Vec<(String, String)>, name: &String) -> (place: Option<usize>)
    ensures
        match place {
            Some(i) => i < pairs@.len() && name_at(pairs@, i as int) == name@,
            None => !has_name(pairs@, name@),
        },
{
    let mut i: usize = 0;
    while i < pairs.len()
        invariant
            i <= pairs@.len(),
            forall|k: int| 0 <= k < i ==> #[trigger] name_at(pairs@, k) != name@,
        decreases pairs@.len() - i,
    {
        if pairs[i].0 == *name {
            return Some(i);
        }
        i = i + 1;
    }
    None
}

/// A map from names to values, kept in the order in which the names came.
#[derive(Debug)]
pub struct TagMap {
    pairs: Vec<(String, String)>,
}

impl View for TagMap {
    type V = Map<Seq<char>, Seq<char>>;

    closed spec fn view(&self) -> Map<Seq<char>, Seq<char>> {
        pairs_map(self.pairs@)
    }
}

impl Clone for TagMap {
    fn clone(&self) -> (copy: TagMap)
        ensures
            copy@ == self@,
    {
        proof {
            use_type_invariant(self);
        }
        let mut pairs: Vec<(String, String)> = Vec::new();
        let mut i: usize = 0;
        while i < self.pairs.len()
            invariant
                i <= self.pairs@.len(),
                pairs@ == self.pairs@.take(i as int),
            decreases self.pairs@.len() - i,
        {
            pairs.push((self.pairs[i].0.clone(), self.pairs[i].1.clone()));
            assert(pairs@ =~= self.pairs@.take(i + 1));
            i = i + 1;
        }
        assert(pairs@ =~= self.pairs@);
        TagMap { pairs }
    }
}

impl TagMap {
    #[verifier::type_invariant]
    spec fn no_name_twice(self) -> bool {
        distinct_names(self.pairs@)
    }

    /// The map that holds nothing.
    pub fn new() -> (map: TagMap)
        ensures
            map@ == Map::<Seq<char>, Seq<char>>::empty(),
    {
        let map = TagMap { pairs: Vec::new() };
        assert(map@ =~= Map::<Seq<char>, Seq<char>>::empty());
        map
    }

    /// Gives `name` the value `value`, in place of the value that it had,
    /// if it had one.
    pub fn insert(&mut self, name: &str, value: &str)
        ensures
            final(self)@ == old(self)@.insert(name@, value@),
    {
        proof {
            use_type_invariant(&*self);
        }
        let name = String::from_str(name);
        let value = String::from_str(value);
        let mut pairs: Vec<(String, String)> = Vec::new();
        core::mem::swap(&mut self.pairs, &mut pairs);
        match find(&pairs, &name) {
            Some(i) => {
                proof {
                    lemma_replace(pairs@, i as int, name, value);
                }
                pairs.set(i, (name, value));
            },
            None => {
                proof {
                    lemma_append(pairs@, name, value);
                }
                pairs.push((name, value));
            },
        }
        self.pairs = pairs;
    }

    /// The value of `name`, if it has one.
    pub fn get(&self, name: &str) -> (value: Option<&String>)
        ensures
            match value {
                Some(v) => self@.contains_key(name@) && v@ == self@[name@],
                None => !self@.contains_key(name@),
            },
    {
        proof {
            use_type_invariant(self);
        }
        let name = String::from_str(name);
        match find(&self.pairs, &name) {
            Some(i) => {
                proof {
                    lemma_place(self.pairs@, i as int);
                }
                Some(&self.pairs[i].1)
            },
            None => None,
        }
    }

    /// Whether the map holds nothing.
    pub fn is_empty(&self) -> (empty: bool)
        ensures
            empty == (self@ == Map::<Seq<char>, Seq<char>>::empty()),
    {
        proof {
            use_type_invariant(self);
            if self.pairs@.len() > 0 {
                lemma_place(self.pairs@, 0);
            } else {
                assert(self@ =~= Map::<Seq<char>, Seq<char>>::empty());
            }
        }
        self.pairs.len() == 0
    }

    /// The names with their values, in the order in which the names came,
    /// no name twice.
    pub fn pairs(&self) -> (pairs: &Vec<(String, String)>)
        ensures
            distinct_names(pairs@),
            pairs_map(pairs@) == self@,
    {
        proof {
            use_type_invariant(self);
        }
        &self.pairs
    }
}

} // verus!
