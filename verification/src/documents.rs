//! Documents and their enumeration.
//!
//! The server lists documents page by page. [`PageCollector`] is the
//! enumerator's accumulator: the I/O layer fetches successive pages and
//! hands each one in, and the collector keeps every item in
//! server-defined order until a page announces that none follow. It
//! works for any item type, so full records and bare document ids are
//! collected the same way. An enumeration without a correspondent
//! filter covers every document the server has; that it can be large is
//! the caller's concern — nothing here cuts it short.

use vstd::prelude::*;

verus! {

/// A read-only snapshot of one document record. `correspondent_id` is
/// the id of the correspondent the document is attributed to, if any.
#[derive(Debug)]
pub struct Document {
    pub id: i32,
    pub title: String,
    pub tags: Vec<String>,
    pub correspondent_id: Option<i32>,
}

/// Accumulates a paginated listing: the items collected so far, in the
/// order the server produced them, and whether the last page seen was
/// the final one.
#[derive(Debug)]
pub struct PageCollector<T> {
    pub items: Vec<T>,
    pub finished: bool,
}

impl<T> PageCollector<T> {
    /// An empty collector, before any page was fetched.
    pub fn new() -> (r: Self)
        ensures
            r.items@ == Seq::<T>::empty(),
            !r.finished,
    {
        PageCollector { items: Vec::new(), finished: false }
    }

    /// Takes the next fetched page: its items are appended after
    /// everything collected so far, and the collector is finished
    /// exactly when no page follows this one.
    pub fn push_page(&mut self, page: Vec<T>, has_next: bool)
        requires
            !old(self).finished,
        ensures
            final(self).items@ == old(self).items@ + page@,
            final(self).finished == !has_next,
    {
        let mut page = page;
        self.items.append(&mut page);
        self.finished = !has_next;
    }

    /// Hands the collected items out, in collection order.
    pub fn into_items(self) -> (r: Vec<T>)
        ensures
            r@ == self.items@,
    {
        self.items
    }
}

/// The ids of the given documents, in the same order.
pub open spec fn spec_document_ids(docs: Seq<Document>) -> Seq<i32> {
    docs.map_values(|d: Document| d.id)
}

/// Projects a document listing to its ids, preserving order.
pub fn document_ids(docs: &Vec<Document>) -> (r: Vec<i32>)
    ensures
        r@ == spec_document_ids(docs@),
{
    let mut ids: Vec<i32> = Vec::new();
    let mut i: usize = 0;
    while i < docs.len()
        invariant
            i <= docs@.len(),
            ids@ == spec_document_ids(docs@.take(i as int)),
        decreases docs@.len() - i,
    {
        ids.push(docs[i].id);
        proof {
            assert(docs@.take(i as int + 1) =~= docs@.take(i as int).push(docs@[i as int]));
            assert(spec_document_ids(docs@.take(i as int + 1)) =~= spec_document_ids(
                docs@.take(i as int),
            ).push(docs@[i as int].id));
        }
        i = i + 1;
    }
    proof {
        assert(docs@.take(docs@.len() as int) =~= docs@);
    }
    ids
}

} // verus!
