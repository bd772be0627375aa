//! The in-memory document collection backing the `mem://` endpoint.
//!
//! The collection is insert-only: `insert_one` appends a document and
//! `find_one` returns one match per the collection's own lookup order, which
//! this backend defines as most-recently-inserted first. Duplicate keys are
//! permitted and simply accumulate.

use vstd::prelude::*;

use crate::document::{spec_lookup, Document, FieldValue, FieldView, ValueView};

verus! {

/// Whether `doc`'s first `key` field is text equal to `key`.
pub open spec fn doc_matches(doc: Seq<FieldView>, key: Seq<char>) -> bool {
    spec_lookup(doc, "key"@) == Some(ValueView::Text(key))
}

/// The index of the document `find_one` returns for `key`: the last (most
/// recently inserted) match, if any.
pub open spec fn spec_find(docs: Seq<Seq<FieldView>>, key: Seq<char>) -> Option<int>
    decreases docs.len(),
{
    if docs.len() == 0 {
        None
    } else if doc_matches(docs.last(), key) {
        Some(docs.len() - 1)
    } else {
        spec_find(docs.drop_last(), key)
    }
}

/// An insert-only store of documents, in insertion order.
pub struct DocumentCollection {
    docs: Vec<Document>,
}

impl View for DocumentCollection {
    type V = Seq<Seq<FieldView>>;

    closed spec fn view(&self) -> Seq<Seq<FieldView>> {
        Seq::new(self.docs.len() as nat, |i: int| self.docs[i]@)
    }
}

impl DocumentCollection {
    /// An empty collection.
    pub fn new() -> (c: DocumentCollection)
        ensures
            c@ == Seq::<Seq<FieldView>>::empty(),
    {
        let c = DocumentCollection { docs: Vec::new() };
        proof {
            assert(c@ =~= Seq::<Seq<FieldView>>::empty());
        }
        c
    }

    /// How many documents the collection holds.
    pub fn len(&self) -> (n: usize)
        ensures
            n == self@.len(),
    {
        self.docs.len()
    }

    /// The document at `i`, in insertion order.
    pub fn doc_at(&self, i: usize) -> (d: &Document)
        requires
            i < self@.len(),
        ensures
            d@ == self@[i as int],
    {
        &self.docs[i]
    }

    /// Appends a document. Never updates or removes an existing one.
    pub fn insert_one(&mut self, d: Document)
        ensures
            final(self)@ == old(self)@.push(d@),
    {
        let ghost prev = self@;
        self.docs.push(d);
        proof {
            assert(self@ =~= prev.push(self@[prev.len() as int]));
        }
    }

    /// Looks up one document whose `key` field is text equal to `key`,
    /// preferring the most recently inserted match.
    pub fn find_one(&self, key: &String) -> (r: Option<usize>)
        ensures
            match r {
                Some(i) => spec_find(self@, key@) == Some(i as int),
                None => spec_find(self@, key@) is None,
            },
    {
        let key_name = String::from_str("key");
        let mut i: usize = self.docs.len();
        proof {
            assert(self@.subrange(0, self@.len() as int) =~= self@);
        }
        while i > 0
            invariant
                i <= self.docs.len(),
                key_name@ == "key"@,
                spec_find(self@, key@) == spec_find(self@.subrange(0, i as int), key@),
            decreases i,
        {
            i = i - 1;
            let ghost head = self@.subrange(0, i as int + 1);
            proof {
                assert(head.last() == self@[i as int]);
                assert(head.drop_last() =~= self@.subrange(0, i as int));
            }
            let doc = &self.docs[i];
            let matched: bool = match doc.lookup(&key_name) {
                Some(FieldValue::Text(k)) => *k == *key,
                _ => false,
            };
            proof {
                assert(matched == doc_matches(self@[i as int], key@));
            }
            if matched {
                return Some(i);
            }
        }
        proof {
            assert(self@.subrange(0, 0) =~= Seq::<Seq<FieldView>>::empty());
        }
        None
    }
}

/// A key that matches no document in the store is never found: `find_one`
/// reports absence exactly when no document's `key` field equals the key.
pub proof fn lemma_find_absent(docs: Seq<Seq<FieldView>>, key: Seq<char>)
    ensures
        (spec_find(docs, key) is None) <==> (forall|i: int|
            0 <= i < docs.len() ==> !doc_matches(docs[i], key)),
    decreases docs.len(),
{
    if docs.len() > 0 {
        lemma_find_absent(docs.drop_last(), key);
        assert(forall|i: int| 0 <= i < docs.len() - 1 ==> docs.drop_last()[i] == docs[i]);
        assert(docs.last() == docs[docs.len() - 1]);
    }
}

/// What `find_one` returns is sound: a found index is in range, its document
/// matches the key, and no more recently inserted document matches.
pub proof fn lemma_find_returns_match(docs: Seq<Seq<FieldView>>, key: Seq<char>, i: int)
    requires
        spec_find(docs, key) == Some(i),
    ensures
        0 <= i < docs.len(),
        doc_matches(docs[i], key),
        forall|j: int| i < j < docs.len() ==> !doc_matches(docs[j], key),
    decreases docs.len(),
{
    if docs.len() > 0 {
        if doc_matches(docs.last(), key) {
        } else {
            lemma_find_returns_match(docs.drop_last(), key, i);
            assert(forall|j: int| 0 <= j < docs.len() - 1 ==> docs.drop_last()[j] == docs[j]);
        }
    }
}

/// Inserting a record makes it the one `find_one` prefers for its key.
pub proof fn lemma_find_after_insert(docs: Seq<Seq<FieldView>>, d: Seq<FieldView>, key: Seq<char>)
    requires
        doc_matches(d, key),
    ensures
        spec_find(docs.push(d), key) == Some(docs.len() as int),
{
    assert(docs.push(d).last() == d);
}

} // verus!
