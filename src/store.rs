//! The document store: the current full text of every open document, keyed
//! by its URI.
//!
//! Entries are kept in a vector with at most one entry per URI; the store's
//! value is the map from URI to text.

use vstd::prelude::*;

verus! {

/// The full text of each open document, by URI.
pub struct DocumentStore {
    entries: Vec<(String, String)>,
    docs: Ghost<Map<Seq<char>, Seq<char>>>,
}

impl View for DocumentStore {
    type V = Map<Seq<char>, Seq<char>>;

    closed spec fn view(&self) -> Map<Seq<char>, Seq<char>> {
        self.docs@
    }
}

impl DocumentStore {
    /// Each URI has at most one entry, and the entries are exactly the map.
    pub closed spec fn wf(&self) -> bool {
        &&& forall|i: int, j: int|
            0 <= i < j < self.entries@.len() ==> (#[trigger] self.entries@[i]).0@ != (
            #[trigger] self.entries@[j]).0@
        &&& forall|i: int|
            0 <= i < self.entries@.len() ==> {
                &&& self.docs@.contains_key((#[trigger] self.entries@[i]).0@)
                &&& self.docs@[self.entries@[i].0@] == self.entries@[i].1@
            }
        &&& forall|k: Seq<char>| #[trigger]
            self.docs@.contains_key(k) ==> exists|i: int|
                0 <= i < self.entries@.len() && (#[trigger] self.entries@[i]).0@ == k
    }

    /// An empty store.
    pub fn new() -> (r: DocumentStore)
        ensures
            r.wf(),
            r@ == Map::<Seq<char>, Seq<char>>::empty(),
    {
        DocumentStore { entries: Vec::new(), docs: Ghost(Map::empty()) }
    }

    /// The index of the entry for `uri`, if there is one.
    fn find(&self, uri: &String) -> (r: Option<usize>)
        requires
            self.wf(),
        ensures
            match r {
                Some(i) => i < self.entries@.len() && self.entries@[i as int].0@ == uri@,
                None => !self@.contains_key(uri@),
            },
    {
        let n = self.entries.len();
        for i in 0..n
            invariant
                n == self.entries@.len(),
                forall|j: int| 0 <= j < i ==> (#[trigger] self.entries@[j]).0@ != uri@,
        {
            if self.entries[i].0 == *uri {
                return Some(i);
            }
        }
        None
    }

    /// The current text of `uri`, or `None` when no text was stored for it.
    pub fn get(&self, uri: &String) -> (r: Option<String>)
        requires
            self.wf(),
        ensures
            match r {
                Some(t) => self@.contains_key(uri@) && t@ == self@[uri@],
                None => !self@.contains_key(uri@),
            },
    {
        match self.find(uri) {
            Some(i) => Some(self.entries[i].1.clone()),
            None => None,
        }
    }

    /// Stores `text` as the whole text of `uri`, replacing any earlier text.
    pub fn put(&mut self, uri: String, text: String)
        requires
            old(self).wf(),
        ensures
            final(self).wf(),
            final(self)@ == old(self)@.insert(uri@, text@),
    {
        let ghost key = uri@;
        let ghost value = text@;
        let ghost docs = self.docs@.insert(key, value);
        match self.find(&uri) {
            Some(i) => {
                self.entries.set(i, (uri, text));
                self.docs = Ghost(docs);
                assert forall|k: Seq<char>| #[trigger] docs.contains_key(k) implies exists|j: int|
                    0 <= j < self.entries@.len() && (#[trigger] self.entries@[j]).0@ == k by {
                    if k != key {
                        let j = choose|j: int|
                            0 <= j < old(self).entries@.len() && (#[trigger] old(
                                self,
                            ).entries@[j]).0@ == k;
                        assert(self.entries@[j] == old(self).entries@[j]);
                    } else {
                        assert(self.entries@[i as int].0@ == k);
                    }
                }
            },
            None => {
                self.entries.push((uri, text));
                self.docs = Ghost(docs);
                assert forall|k: Seq<char>| #[trigger] docs.contains_key(k) implies exists|j: int|
                    0 <= j < self.entries@.len() && (#[trigger] self.entries@[j]).0@ == k by {
                    if k != key {
                        let j = choose|j: int|
                            0 <= j < old(self).entries@.len() && (#[trigger] old(
                                self,
                            ).entries@[j]).0@ == k;
                        assert(self.entries@[j] == old(self).entries@[j]);
                    } else {
                        assert(self.entries@[old(self).entries@.len() as int].0@ == k);
                    }
                }
            },
        }
    }
}

/// Full replacement, last write wins: after two writes of one URI the
/// second text is the one stored, and the first leaves no trace.
pub proof fn lemma_last_write_wins(
    docs: Map<Seq<char>, Seq<char>>,
    uri: Seq<char>,
    first: Seq<char>,
    second: Seq<char>,
)
    ensures
        docs.insert(uri, first).insert(uri, second)[uri] == second,
        docs.insert(uri, first).insert(uri, second) == docs.insert(uri, second),
{
    assert(docs.insert(uri, first).insert(uri, second) =~= docs.insert(uri, second));
}

/// Writes to two distinct URIs do not interfere: each URI keeps its own text,
/// and the order of the two writes does not matter.
pub proof fn lemma_distinct_uris_independent(
    docs: Map<Seq<char>, Seq<char>>,
    a: Seq<char>,
    text_a: Seq<char>,
    b: Seq<char>,
    text_b: Seq<char>,
)
    requires
        a != b,
    ensures
        docs.insert(a, text_a).insert(b, text_b)[a] == text_a,
        docs.insert(a, text_a).insert(b, text_b)[b] == text_b,
        docs.insert(a, text_a).insert(b, text_b) == docs.insert(b, text_b).insert(a, text_a),
{
    assert(docs.insert(a, text_a).insert(b, text_b) =~= docs.insert(b, text_b).insert(a, text_a));
}

/// The map left by a sequence of writes, from the empty store.
pub open spec fn stored_after(writes: Seq<(Seq<char>, Seq<char>)>) -> Map<Seq<char>, Seq<char>>
    decreases writes.len(),
{
    if writes.len() == 0 {
        Map::empty()
    } else {
        stored_after(writes.drop_last()).insert(writes.last().0, writes.last().1)
    }
}

/// A URI that no write named is not in the store.
pub proof fn lemma_never_stored_is_absent(writes: Seq<(Seq<char>, Seq<char>)>, uri: Seq<char>)
    requires
        forall|i: int| 0 <= i < writes.len() ==> (#[trigger] writes[i]).0 != uri,
    ensures
        !stored_after(writes).contains_key(uri),
    decreases writes.len(),
{
    if writes.len() > 0 {
        let prev = writes.drop_last();
        assert forall|i: int| 0 <= i < prev.len() implies (#[trigger] prev[i]).0 != uri by {
            assert(prev[i] == writes[i]);
        }
        lemma_never_stored_is_absent(prev, uri);
        assert(writes[writes.len() - 1].0 != uri);
    }
}

} // verus!
