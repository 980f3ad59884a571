//! Secrets: named byte strings under a name, kept as Base64 text.

use crate::encoding::{base64_bytes, decode_base64, encode_base64};
use crate::errors::{Error, ErrorKind, ErrorView};
use crate::location::pairs_view;
use crate::resources::entries::{pairs_map, Entries};
use crate::resources::metadata::{opt_string_view, Metadata};
use crate::resources::{Kind, Resource};
use vstd::prelude::*;

verus! {

/// A secret. Each value is held as the Base64 text that stands for it.
#[derive(Clone, Debug)]
pub struct Secret {
    data: Entries,
    metadata: Metadata,
}

/// The mathematical content of a [`Secret`]: under each name the bytes of
/// the secret, not their Base64 text.
pub struct SecretView {
    pub name: Option<Seq<char>>,
    pub namespace: Option<Seq<char>>,
    pub data: Map<Seq<char>, Seq<u8>>,
}

/// Whether every text of `encoded` is Base64.
pub open spec fn all_base64(encoded: Map<Seq<char>, Seq<char>>) -> bool {
    forall|name: Seq<char>| #[trigger]
        encoded.contains_key(name) ==> base64_bytes(encoded[name]) is Some
}

/// The bytes that the texts of `encoded` stand for, name by name.
pub open spec fn decoded(encoded: Map<Seq<char>, Seq<char>>) -> Map<Seq<char>, Seq<u8>> {
    Map::new(
        |name: Seq<char>| encoded.contains_key(name),
        |name: Seq<char>| base64_bytes(encoded[name])->0,
    )
}

/// The secrets that a list of names and byte strings stands for: later
/// pairs win.
pub open spec fn bytes_map(pairs: Seq<(Seq<char>, Seq<u8>)>) -> Map<Seq<char>, Seq<u8>>
    decreases pairs.len(),
{
    if pairs.len() == 0 {
        Map::empty()
    } else {
        bytes_map(pairs.drop_last()).insert(pairs.last().0, pairs.last().1)
    }
}

/// The views of a list of names and byte strings.
pub open spec fn bytes_pairs_view(pairs: Seq<(String, Vec<u8>)>) -> Seq<(Seq<char>, Seq<u8>)> {
    pairs.map_values(|p: (String, Vec<u8>)| (p.0@, p.1@))
}

impl View for Secret {
    type V = SecretView;

    closed spec fn view(&self) -> SecretView {
        SecretView {
            name: opt_string_view(self.metadata.name),
            namespace: opt_string_view(self.metadata.namespace),
            data: decoded(self.data@),
        }
    }
}

impl Secret {
    /// Whether the secret is well formed: no name occurs twice, and every
    /// value it holds is Base64 text.
    pub closed spec fn wf(self) -> bool {
        self.data.wf() && all_base64(self.data@)
    }

    /// The Base64 texts that the secret holds, name by name.
    pub closed spec fn encoded(self) -> Map<Seq<char>, Seq<char>> {
        self.data@
    }

    /// The secret with the given name and no data.
    pub fn new(name: &str) -> (secret: Secret)
        ensures
            secret.wf(),
            secret@ == (SecretView { name: Some(name@), namespace: None, data: Map::empty() }),
    {
        let secret = Secret { data: Entries::new(), metadata: Metadata::named(name) };
        proof {
            assert(decoded(secret.data@) =~= Map::empty());
        }
        secret
    }

    /// A secret from data that is Base64 text already, as a server sends it.
    /// Fails with a decode error where one of the values is not Base64 text.
    /// Of two pairs with one name the later wins.
    pub fn from_encoded(metadata: Metadata, pairs: Vec<(String, String)>) -> (r: Result<
        Secret,
        Error,
    >)
        ensures
            match r {
                Ok(secret) => {
                    &&& all_base64(pairs_map(pairs_view(pairs@)))
                    &&& secret.wf()
                    &&& secret.encoded() == pairs_map(pairs_view(pairs@))
                    &&& secret@ == (SecretView {
                        name: opt_string_view(metadata.name),
                        namespace: opt_string_view(metadata.namespace),
                        data: decoded(pairs_map(pairs_view(pairs@))),
                    })
                },
                Err(e) => {
                    &&& exists|i: int|
                        0 <= i < pairs.len() && base64_bytes((#[trigger] pairs@[i]).1@) is None
                    &&& e@ == ErrorView::bare(ErrorKind::Decode, not_base64()).within(
                        reading_secret(),
                    )
                },
            },
    {
        let ghost all = pairs_view(pairs@);
        let mut data = Entries::new();
        let mut i: usize = 0;
        while i < pairs.len()
            invariant
                i <= pairs.len(),
                all == pairs_view(pairs@),
                data.wf(),
                data@ == pairs_map(all.take(i as int)),
                forall|j: int| 0 <= j < i ==> base64_bytes((#[trigger] pairs@[j]).1@) is Some,
            decreases pairs.len() - i,
        {
            match decode_base64(pairs[i].1.as_str()) {
                None => {
                    return Err(
                        Error::decode("a value of the secret is not Base64 text").with_context(
                            "failed to read the secret",
                        ),
                    );
                },
                Some(_) => {},
            }
            proof {
                assert(all.take(i + 1).drop_last() == all.take(i as int));
            }
            data.insert(pairs[i].0.clone(), pairs[i].1.clone());
            i = i + 1;
        }
        proof {
            assert(all.take(pairs.len() as int) == all);
            lemma_all_base64(all);
        }
        Ok(Secret { data, metadata })
    }

    /// Puts `secret` under `name`, in place of what was held there.
    pub fn insert(&mut self, name: &str, secret: &[u8]) -> (this: &mut Secret)
        requires
            old(self).wf(),
        ensures
            this.wf(),
            this@ == (SecretView { data: old(self)@.data.insert(name@, secret@), ..old(self)@ }),
            *final(self) == *final(this),
    {
        let text = encode_base64(secret);
        let ghost before = self.data@;
        self.data.insert(String::from_str(name), text);
        proof {
            assert(decoded(self.data@) =~= decoded(before).insert(name@, secret@));
        }
        self
    }

    /// Puts every pair of `entries` into the secret, in their order: a name
    /// that `entries` holds replaces what the secret held under it, and of
    /// two pairs with one name the later wins.
    pub fn append(&mut self, entries: Vec<(String, Vec<u8>)>) -> (this: &mut Secret)
        requires
            old(self).wf(),
        ensures
            this.wf(),
            this@ == (SecretView {
                data: old(self)@.data.union_prefer_right(bytes_map(bytes_pairs_view(entries@))),
                ..old(self)@
            }),
            *final(self) == *final(this),
    {
        let ghost all = bytes_pairs_view(entries@);
        let ghost start = decoded(self.data@);
        let mut i: usize = 0;
        while i < entries.len()
            invariant
                i <= entries.len(),
                all == bytes_pairs_view(entries@),
                self.data.wf(),
                all_base64(self.data@),
                self.metadata == old(self).metadata,
                decoded(self.data@) == start.union_prefer_right(bytes_map(all.take(i as int))),
            decreases entries.len() - i,
        {
            let text = encode_base64(entries[i].1.as_slice());
            self.data.insert(entries[i].0.clone(), text);
            proof {
                let name = entries@[i as int].0@;
                let bytes = entries@[i as int].1@;
                assert(all.take(i + 1).drop_last() == all.take(i as int));
                assert(start.union_prefer_right(bytes_map(all.take(i + 1)))
                    =~= start.union_prefer_right(bytes_map(all.take(i as int))).insert(name, bytes));
            }
            i = i + 1;
        }
        proof {
            assert(all.take(entries.len() as int) == all);
        }
        self
    }

    /// The secret held under `name`, if there is one.
    pub fn get(&self, name: &str) -> (secret: Option<Vec<u8>>)
        requires
            self.wf(),
        ensures
            match secret {
                Some(bytes) => self@.data.contains_key(name@) && self@.data[name@] == bytes@,
                None => !self@.data.contains_key(name@),
            },
    {
        match self.data.get(name) {
            None => None,
            Some(text) => {
                let bytes = decode_base64(text.as_str());
                bytes
            },
        }
    }

    /// The data of the secret as Base64 text.
    pub fn data(&self) -> (data: &Entries)
        ensures
            data@ == self.encoded(),
            decoded(data@) == self@.data,
            self.wf() ==> data.wf() && all_base64(data@),
    {
        &self.data
    }

    /// The metadata of the secret.
    pub fn metadata(&self) -> (metadata: &Metadata)
        ensures
            opt_string_view(metadata.name) == self@.name,
            opt_string_view(metadata.namespace) == self@.namespace,
    {
        &self.metadata
    }
}

/// The context that a failure to read a secret passes through.
pub open spec fn reading_secret() -> Seq<char> {
    "failed to read the secret"@
}

/// The message of the error for a value that is not Base64 text.
pub open spec fn not_base64() -> Seq<char> {
    "a value of the secret is not Base64 text"@
}

/// Where every value of a list is Base64 text, every text of its map is.
proof fn lemma_all_base64(pairs: Seq<(Seq<char>, Seq<char>)>)
    requires
        forall|j: int| 0 <= j < pairs.len() ==> base64_bytes((#[trigger] pairs[j]).1) is Some,
    ensures
        all_base64(pairs_map(pairs)),
    decreases pairs.len(),
{
    if pairs.len() > 0 {
        let front = pairs.drop_last();
        assert forall|j: int| 0 <= j < front.len() implies base64_bytes((#[trigger] front[j]).1)
            is Some by {}
        lemma_all_base64(front);
    }
}

impl Resource for Secret {
    open spec fn bound_kind() -> Kind {
        Kind::Secret
    }

    fn kind() -> (kind: Kind) {
        Kind::Secret
    }
}

} // verus!
