//! Config maps: named texts under a name.

use crate::location::pairs_view;
use crate::resources::entries::{pairs_map, Entries};
use crate::resources::metadata::{opt_string_view, Metadata};
use crate::resources::{Kind, Resource};
use vstd::prelude::*;

verus! {

/// A config map.
#[derive(Clone, Debug)]
pub struct ConfigMap {
    data: Entries,
    metadata: Metadata,
}

/// The mathematical content of a [`ConfigMap`].
pub struct ConfigMapView {
    pub name: Option<Seq<char>>,
    pub namespace: Option<Seq<char>>,
    pub data: Map<Seq<char>, Seq<char>>,
}

impl View for ConfigMap {
    type V = ConfigMapView;

    closed spec fn view(&self) -> ConfigMapView {
        ConfigMapView {
            name: opt_string_view(self.metadata.name),
            namespace: opt_string_view(self.metadata.namespace),
            data: self.data@,
        }
    }
}

/// Putting the pairs of a list into a map one after the other comes to the
/// union of the map with the map of the list, in which the list wins.
pub proof fn lemma_insert_all(
    map: Map<Seq<char>, Seq<char>>,
    pairs: Seq<(Seq<char>, Seq<char>)>,
)
    ensures
        pairs.len() > 0 ==> map.union_prefer_right(pairs_map(pairs)) == map.union_prefer_right(
            pairs_map(pairs.drop_last()),
        ).insert(pairs.last().0, pairs.last().1),
        pairs.len() == 0 ==> map.union_prefer_right(pairs_map(pairs)) == map,
{
    if pairs.len() > 0 {
        assert(map.union_prefer_right(pairs_map(pairs)) =~= map.union_prefer_right(
            pairs_map(pairs.drop_last()),
        ).insert(pairs.last().0, pairs.last().1));
    } else {
    }
}

impl ConfigMap {
    /// Whether the config map is well formed: no name occurs twice.
    pub closed spec fn wf(self) -> bool {
        self.data.wf()
    }

    /// The config map with the given name and no data.
    pub fn new(name: &str) -> (map: ConfigMap)
        ensures
            map.wf(),
            map@ == (ConfigMapView { name: Some(name@), namespace: None, data: Map::empty() }),
    {
        ConfigMap { data: Entries::new(), metadata: Metadata::named(name) }
    }

    /// The config map with the given metadata and data. Of two pairs with
    /// one name the later wins.
    pub fn from_parts(metadata: Metadata, pairs: Vec<(String, String)>) -> (map: ConfigMap)
        ensures
            map.wf(),
            map@ == (ConfigMapView {
                name: opt_string_view(metadata.name),
                namespace: opt_string_view(metadata.namespace),
                data: pairs_map(pairs_view(pairs@)),
            }),
    {
        let mut map = ConfigMap { data: Entries::new(), metadata };
        proof {
            assert(Map::<Seq<char>, Seq<char>>::empty().union_prefer_right(
                pairs_map(pairs_view(pairs@)),
            ) =~= pairs_map(pairs_view(pairs@)));
        }
        map.append(pairs);
        map
    }

    /// Puts `data` under `name`, in place of what the config map held there.
    pub fn insert(&mut self, name: &str, data: &str) -> (map: &mut ConfigMap)
        requires
            old(self).wf(),
        ensures
            map.wf(),
            map@ == (ConfigMapView { data: old(self)@.data.insert(name@, data@), ..old(self)@ }),
            *final(self) == *final(map),
    {
        self.data.insert(String::from_str(name), String::from_str(data));
        self
    }

    /// Puts every pair of `entries` into the config map, in their order: a
    /// name that `entries` holds replaces what the config map held under it,
    /// and of two pairs with one name the later wins.
    pub fn append(&mut self, entries: Vec<(String, String)>) -> (map: &mut ConfigMap)
        requires
            old(self).wf(),
        ensures
            map.wf(),
            map@ == (ConfigMapView {
                data: old(self)@.data.union_prefer_right(pairs_map(pairs_view(entries@))),
                ..old(self)@
            }),
            *final(self) == *final(map),
    {
        let ghost all = pairs_view(entries@);
        let ghost start = self.data@;
        let mut i: usize = 0;
        proof {
            lemma_insert_all(start, all.take(0));
        }
        while i < entries.len()
            invariant
                i <= entries.len(),
                all == pairs_view(entries@),
                self.data.wf(),
                self.metadata == old(self).metadata,
                self.data@ == start.union_prefer_right(pairs_map(all.take(i as int))),
            decreases entries.len() - i,
        {
            proof {
                assert(all.take(i + 1).drop_last() == all.take(i as int));
                lemma_insert_all(start, all.take(i + 1));
            }
            self.data.insert(entries[i].0.clone(), entries[i].1.clone());
            i = i + 1;
        }
        proof {
            assert(all.take(entries.len() as int) == all);
        }
        self
    }

    /// The text held under `name`, if the config map holds the name.
    pub fn get(&self, name: &str) -> (data: Option<&String>)
        requires
            self.wf(),
        ensures
            match data {
                Some(text) => self@.data.contains_key(name@) && self@.data[name@] == text@,
                None => !self@.data.contains_key(name@),
            },
    {
        self.data.get(name)
    }

    /// The data of the config map.
    pub fn data(&self) -> (data: &Entries)
        ensures
            data@ == self@.data,
            data.wf() == self.wf(),
    {
        &self.data
    }

    /// The metadata of the config map.
    pub fn metadata(&self) -> (metadata: &Metadata)
        ensures
            opt_string_view(metadata.name) == self@.name,
            opt_string_view(metadata.namespace) == self@.namespace,
    {
        &self.metadata
    }
}

impl Resource for ConfigMap {
    open spec fn bound_kind() -> Kind {
        Kind::ConfigMap
    }

    fn kind() -> (kind: Kind) {
        Kind::ConfigMap
    }
}

} // verus!
