//! Documents and an in-memory collection of them, keyed by identifier.
use vstd::prelude::*;
use crate::ident::DocId;

verus! {

/// The mutable fields of a document kind, which can be copied exactly.
pub trait Record: Sized {
    fn duplicate(&self) -> (r: Self)
        ensures
            r == *self,
    ;
}

/// The fields of a user.
#[derive(Debug)]
pub struct UserFields {
    pub username: String,
}

/// The fields of a post; `author` is free text, not a user's identifier.
#[derive(Debug)]
pub struct PostFields {
    pub title: String,
    pub content: String,
    pub author: String,
}

impl Record for UserFields {
    fn duplicate(&self) -> (r: Self) {
        UserFields { username: self.username.clone() }
    }
}

impl Record for PostFields {
    fn duplicate(&self) -> (r: Self) {
        PostFields {
            title: self.title.clone(),
            content: self.content.clone(),
            author: self.author.clone(),
        }
    }
}

/// A stored document: its identifier and its fields.
#[derive(Debug)]
pub struct Document<F> {
    pub id: DocId,
    pub fields: F,
}

impl<F: Record> Document<F> {
    pub fn duplicate(&self) -> (r: Self)
        ensures
            r == *self,
    {
        Document { id: self.id, fields: self.fields.duplicate() }
    }
}

/// A collection of documents with distinct identifiers, held in memory.
pub struct Collection<F> {
    docs: Vec<Document<F>>,
    contents: Ghost<Map<Seq<u8>, F>>,
}

impl<F> View for Collection<F> {
    type V = Map<Seq<u8>, F>;

    /// The fields of each document, by the bytes of its identifier.
    closed spec fn view(&self) -> Map<Seq<u8>, F> {
        self.contents@
    }
}

impl<F: Record> Collection<F> {
    /// The identifiers are distinct and the documents are exactly the view.
    pub closed spec fn wf(&self) -> bool {
        &&& forall|i: int, j: int|
            0 <= i < j < self.docs@.len() ==> self.docs@[i].id@ != self.docs@[j].id@
        &&& forall|i: int|
            0 <= i < self.docs@.len() ==> {
                &&& #[trigger] self.contents@.contains_key(self.docs@[i].id@)
                &&& self.contents@[self.docs@[i].id@] == self.docs@[i].fields
            }
        &&& forall|k: Seq<u8>|
            #[trigger] self.contents@.contains_key(k) ==> exists|i: int|
                0 <= i < self.docs@.len() && self.docs@[i].id@ == k
    }

    /// The documents, in the order they were stored.
    pub closed spec fn documents(&self) -> Seq<Document<F>> {
        self.docs@
    }

    /// An empty collection.
    pub fn new() -> (r: Self)
        ensures
            r.wf(),
            r@ == Map::<Seq<u8>, F>::empty(),
    {
        Collection { docs: Vec::new(), contents: Ghost(Map::empty()) }
    }

    /// The number of documents.
    pub fn len(&self) -> (r: usize)
        requires
            self.wf(),
        ensures
            r == self@.len(),
    {
        proof { self.lemma_len(); }
        self.docs.len()
    }

    proof fn lemma_len(&self)
        requires
            self.wf(),
        ensures
            self.docs@.len() == self@.len(),
            self@.dom().finite(),
    {
        let ids = Seq::new(self.docs@.len(), |i: int| self.docs@[i].id@);
        assert forall|i: int, j: int| 0 <= i < j < ids.len() implies ids[i] != ids[j] by {}
        ids.unique_seq_to_set();
        assert(ids.to_set() =~= self@.dom()) by {
            assert forall|k: Seq<u8>| #[trigger] self@.dom().contains(k) implies ids.to_set().contains(k) by {
                let i = choose|i: int| 0 <= i < self.docs@.len() && self.docs@[i].id@ == k;
                assert(ids[i] == k);
            }
        }
    }

    /// Where the document with this identifier stands, if any.
    fn position(&self, id: &DocId) -> (r: Option<usize>)
        requires
            self.wf(),
        ensures
            r is Some <==> self@.contains_key(id@),
            r is Some ==> r->Some_0 < self.docs@.len() && self.docs@[r->Some_0 as int].id@ == id@,
    {
        let mut i: usize = 0;
        while i < self.docs.len()
            invariant
                self.wf(),
                0 <= i <= self.docs@.len(),
                forall|j: int| 0 <= j < i ==> self.docs@[j].id@ != id@,
            decreases self.docs@.len() - i,
        {
            if self.docs[i].id.same(id) {
                return Some(i);
            }
            i = i + 1;
        }
        proof {
            if self@.contains_key(id@) {
                let w = choose|w: int| 0 <= w < self.docs@.len() && self.docs@[w].id@ == id@;
                assert(self.docs@[w].id@ == id@);
            }
        }
        None
    }

    /// Stores a new document; refused when the identifier is already taken.
    pub fn insert(&mut self, doc: Document<F>) -> (r: Result<(), StoreFault>)
        requires
            old(self).wf(),
            old(self)@.len() < usize::MAX,
        ensures
            final(self).wf(),
            r is Ok <==> !old(self)@.contains_key(doc.id@),
            r is Ok ==> final(self)@ == old(self)@.insert(doc.id@, doc.fields),
            r is Err ==> final(self)@ == old(self)@,
    {
        if self.position(&doc.id).is_some() {
            return Err(StoreFault::DuplicateId);
        }
        proof { self.lemma_len(); }
        let ghost key = doc.id@;
        let ghost fields = doc.fields;
        self.contents = Ghost(self.contents@.insert(key, fields));
        self.docs.push(doc);
        proof {
            let n = self.docs@.len() - 1;
            assert forall|k: Seq<u8>| #[trigger] self.contents@.contains_key(k) implies exists|i: int|
                0 <= i < self.docs@.len() && self.docs@[i].id@ == k by {
                if k == key {
                    assert(self.docs@[n].id@ == k);
                } else {
                    let i = choose|i: int| 0 <= i < old(self).docs@.len() && old(self).docs@[i].id@ == k;
                    assert(self.docs@[i].id@ == k);
                }
            }
        }
        Ok(())
    }

    /// The document with this identifier, if any.
    pub fn find(&self, id: &DocId) -> (r: Option<&Document<F>>)
        requires
            self.wf(),
        ensures
            r is Some <==> self@.contains_key(id@),
            r is Some ==> r->Some_0.id@ == id@ && r->Some_0.fields == self@[id@],
    {
        match self.position(id) {
            Some(i) => Some(&self.docs[i]),
            None => None,
        }
    }

    /// All documents, each once.
    pub fn find_all(&self) -> (r: &Vec<Document<F>>)
        requires
            self.wf(),
        ensures
            r@ == self.documents(),
            r@.len() == self@.len(),
            forall|i: int| 0 <= i < r@.len() ==> #[trigger] self@.contains_key(r@[i].id@)
                && self@[r@[i].id@] == r@[i].fields,
            forall|k: Seq<u8>| #[trigger] self@.contains_key(k) ==> exists|i: int|
                0 <= i < r@.len() && r@[i].id@ == k,
            forall|i: int, j: int| 0 <= i < j < r@.len() ==> r@[i].id@ != r@[j].id@,
    {
        proof { self.lemma_len(); }
        &self.docs
    }

    /// Replaces the fields of the document with this identifier; returns how
    /// many documents matched (0 or 1).
    pub fn update(&mut self, id: &DocId, fields: F) -> (matched: u64)
        requires
            old(self).wf(),
        ensures
            final(self).wf(),
            matched == (if old(self)@.contains_key(id@) { 1u64 } else { 0u64 }),
            final(self)@ == (if old(self)@.contains_key(id@) {
                old(self)@.insert(id@, fields)
            } else {
                old(self)@
            }),
    {
        match self.position(id) {
            None => 0,
            Some(k) => {
                let ghost key = id@;
                let ghost f = fields;
                let stored = self.docs[k].id;
                self.contents = Ghost(self.contents@.insert(key, f));
                self.docs.set(k, Document { id: stored, fields });
                proof {
                    let od = old(self).docs@;
                    assert(self.docs@ == od.update(k as int, Document { id: stored, fields: f }));
                    assert forall|i: int| 0 <= i < self.docs@.len() implies {
                        &&& #[trigger] self.contents@.contains_key(self.docs@[i].id@)
                        &&& self.contents@[self.docs@[i].id@] == self.docs@[i].fields
                    } by {
                        if i != k {
                            assert(self.docs@[i] == od[i]);
                            assert(od[i].id@ != key);
                        }
                    }
                    assert forall|k2: Seq<u8>| #[trigger] self.contents@.contains_key(k2) implies exists|i: int|
                        0 <= i < self.docs@.len() && self.docs@[i].id@ == k2 by {
                        let i = choose|i: int| 0 <= i < old(self).docs@.len() && old(self).docs@[i].id@ == k2;
                        assert(self.docs@[i].id@ == k2);
                    }
                }
                1
            },
        }
    }

    /// Removes the document with this identifier; returns how many documents
    /// were removed (0 or 1).
    pub fn delete(&mut self, id: &DocId) -> (deleted: u64)
        requires
            old(self).wf(),
        ensures
            final(self).wf(),
            deleted == (if old(self)@.contains_key(id@) { 1u64 } else { 0u64 }),
            final(self)@ == old(self)@.remove(id@),
    {
        match self.position(id) {
            None => {
                assert(self.contents@.remove(id@) =~= self.contents@);
                0
            },
            Some(k) => {
                let ghost key = id@;
                self.contents = Ghost(self.contents@.remove(key));
                self.docs.remove(k);
                proof {
                    let od = old(self).docs@;
                    assert forall|i: int| 0 <= i < self.docs@.len() implies {
                        &&& #[trigger] self.contents@.contains_key(self.docs@[i].id@)
                        &&& self.contents@[self.docs@[i].id@] == self.docs@[i].fields
                    } by {
                        if i < k {
                            assert(self.docs@[i] == od[i]);
                        } else {
                            assert(self.docs@[i] == od[i + 1]);
                        }
                    }
                    assert forall|k2: Seq<u8>| #[trigger] self.contents@.contains_key(k2) implies exists|i: int|
                        0 <= i < self.docs@.len() && self.docs@[i].id@ == k2 by {
                        let i = choose|i: int| 0 <= i < od.len() && od[i].id@ == k2;
                        if i < k {
                            assert(self.docs@[i].id@ == k2);
                        } else {
                            assert(i != k);
                            assert(self.docs@[i - 1].id@ == k2);
                        }
                    }
                }
                1
            },
        }
    }
}

/// A failure of the store to carry out an operation.
#[derive(Clone, Copy, Debug, PartialEq, Eq, Structural)]
pub enum StoreFault {
    /// A document with the same identifier is already stored.
    DuplicateId,
    /// The store could not be reached, or failed to read or write.
    Unavailable,
}

} // verus!
