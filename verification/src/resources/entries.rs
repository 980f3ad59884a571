//! A small map from names to texts, kept as a list in which no name occurs
//! twice. It holds the data of config maps and secrets.

use crate::location::pairs_view;
use crate::text::same_text;
use vstd::prelude::*;

verus! {

/// The map that a list of name/value pairs stands for: later pairs win.
pub open spec fn pairs_map(pairs: Seq<(Seq<char>, Seq<char>)>) -> Map<Seq<char>, Seq<char>>
    decreases pairs.len(),
{
    if pairs.len() == 0 {
        Map::empty()
    } else {
        pairs_map(pairs.drop_last()).insert(pairs.last().0, pairs.last().1)
    }
}

/// Whether no name occurs twice in `pairs`.
pub open spec fn distinct_names(pairs: Seq<(Seq<char>, Seq<char>)>) -> bool {
    forall|i: int, j: int|
        0 <= i < pairs.len() && 0 <= j < pairs.len() && i != j ==> (#[trigger] pairs[i]).0 != (
        #[trigger] pairs[j]).0
}

/// A name is in the map of a list exactly where it is the name of a pair.
pub proof fn lemma_pairs_map_dom(pairs: Seq<(Seq<char>, Seq<char>)>, name: Seq<char>)
    ensures
        pairs_map(pairs).contains_key(name) <==> exists|i: int|
            0 <= i < pairs.len() && (#[trigger] pairs[i]).0 == name,
    decreases pairs.len(),
{
    if pairs.len() > 0 {
        let front = pairs.drop_last();
        lemma_pairs_map_dom(front, name);
        if exists|i: int| 0 <= i < pairs.len() && (#[trigger] pairs[i]).0 == name {
            let i = choose|i: int| 0 <= i < pairs.len() && (#[trigger] pairs[i]).0 == name;
            if i < pairs.len() - 1 {
                assert(front[i].0 == name);
            }
        }
    }
}

/// In a list without repeated names, each pair's value is what the map
/// holds under the pair's name.
pub proof fn lemma_pairs_map_at(pairs: Seq<(Seq<char>, Seq<char>)>, i: int)
    requires
        distinct_names(pairs),
        0 <= i < pairs.len(),
    ensures
        pairs_map(pairs).contains_key(pairs[i].0),
        pairs_map(pairs)[pairs[i].0] == pairs[i].1,
    decreases pairs.len(),
{
    let front = pairs.drop_last();
    if i < pairs.len() - 1 {
        assert(distinct_names(front));
        lemma_pairs_map_at(front, i);
    }
}

/// Replacing the value of the pair at `i` replaces what the map holds under
/// that pair's name, and nothing else.
pub proof fn lemma_pairs_map_update(
    pairs: Seq<(Seq<char>, Seq<char>)>,
    i: int,
    value: Seq<char>,
)
    requires
        distinct_names(pairs),
        0 <= i < pairs.len(),
    ensures
        distinct_names(pairs.update(i, (pairs[i].0, value))),
        pairs_map(pairs.update(i, (pairs[i].0, value))) == pairs_map(pairs).insert(
            pairs[i].0,
            value,
        ),
    decreases pairs.len(),
{
    let updated = pairs.update(i, (pairs[i].0, value));
    assert(distinct_names(updated));
    let front = pairs.drop_last();
    if i == pairs.len() - 1 {
        assert(updated.drop_last() == front);
    } else {
        assert(distinct_names(front));
        lemma_pairs_map_update(front, i, value);
        assert(updated.drop_last() == front.update(i, (front[i].0, value)));
    }
}

/// A map from names to texts in which no name occurs twice.
#[derive(Clone, Debug)]
pub struct Entries {
    items: Vec<(String, String)>,
}

impl View for Entries {
    type V = Map<Seq<char>, Seq<char>>;

    closed spec fn view(&self) -> Map<Seq<char>, Seq<char>> {
        pairs_map(pairs_view(self.items@))
    }
}

impl Entries {
    /// Whether the map is well formed: no name occurs twice in its list.
    pub closed spec fn wf(self) -> bool {
        distinct_names(pairs_view(self.items@))
    }

    /// The pairs of the map as a list: each name once, in the order in which
    /// the names first came in.
    pub closed spec fn listing(self) -> Seq<(Seq<char>, Seq<char>)> {
        pairs_view(self.items@)
    }

    /// The map without any entry.
    pub fn new() -> (entries: Entries)
        ensures
            entries.wf(),
            entries@ == Map::<Seq<char>, Seq<char>>::empty(),
            entries.listing() == Seq::<(Seq<char>, Seq<char>)>::empty(),
    {
        let entries = Entries { items: Vec::new() };
        entries
    }

    /// Where in the list the pair with this name stands, if the map holds
    /// the name.
    fn position(&self, name: &str) -> (at: Option<usize>)
        ensures
            match at {
                Some(i) => i < self.items.len() && self.items@[i as int].0@ == name@,
                None => !self@.contains_key(name@),
            },
    {
        let mut i: usize = 0;
        while i < self.items.len()
            invariant
                i <= self.items.len(),
                forall|j: int| 0 <= j < i ==> (#[trigger] self.items@[j]).0@ != name@,
            decreases self.items.len() - i,
        {
            if same_text(self.items[i].0.as_str(), name) {
                return Some(i);
            }
            i = i + 1;
        }
        proof {
            lemma_pairs_map_dom(pairs_view(self.items@), name@);
        }
        None
    }

    /// The number of entries.
    pub fn len(&self) -> (n: usize)
        ensures
            n == self.listing().len(),
    {
        self.items.len()
    }

    /// The text held under `name`, if the map holds the name.
    pub fn get(&self, name: &str) -> (value: Option<&String>)
        requires
            self.wf(),
        ensures
            match value {
                Some(v) => self@.contains_key(name@) && self@[name@] == v@,
                None => !self@.contains_key(name@),
            },
    {
        match self.position(name) {
            Some(i) => {
                proof {
                    lemma_pairs_map_at(pairs_view(self.items@), i as int);
                }
                Some(&self.items[i].1)
            },
            None => None,
        }
    }

    /// Puts `value` under `name`, in place of what the map held there.
    pub fn insert(&mut self, name: String, value: String)
        requires
            old(self).wf(),
        ensures
            final(self).wf(),
            final(self)@ == old(self)@.insert(name@, value@),
    {
        let ghost before = pairs_view(self.items@);
        match self.position(name.as_str()) {
            Some(i) => {
                proof {
                    lemma_pairs_map_update(before, i as int, value@);
                    assert(pairs_view(self.items@.update(i as int, (name, value))) =~= before.update(
                        i as int,
                        (before[i as int].0, value@),
                    ));
                }
                self.items.set(i, (name, value));
            },
            None => {
                proof {
                    lemma_pairs_map_dom(before, name@);
                    let after = pairs_view(self.items@.push((name, value)));
                    assert(after.drop_last() =~= before);
                    assert(distinct_names(after)) by {
                        assert forall|a: int, b: int|
                            0 <= a < after.len() && 0 <= b < after.len() && a != b implies (
                        #[trigger] after[a]).0 != (#[trigger] after[b]).0 by {
                            if a < before.len() && b < before.len() {
                                assert(before[a].0 != before[b].0);
                            } else if a < before.len() {
                                assert(before[a].0 != name@);
                            } else {
                                assert(before[b].0 != name@);
                            }
                        }
                    }
                }
                self.items.push((name, value));
            },
        }
    }

    /// The pairs of the map, each name once.
    pub fn pairs(&self) -> (pairs: &Vec<(String, String)>)
        ensures
            pairs_view(pairs@) == self.listing(),
            pairs_map(self.listing()) == self@,
            self.wf() ==> distinct_names(self.listing()),
    {
        &self.items
    }
}

} // verus!
