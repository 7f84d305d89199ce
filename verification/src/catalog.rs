//! The catalog store: an ordered, in-memory sequence of book records,
//! accessed only through three operations — list, append, remove-at-index.
//!
//! A record has no stored identity: its zero-based position in the current
//! order is its only handle. Removing a record shifts every later record
//! down by one position; this positional identity is part of the design.

use vstd::prelude::*;
use crate::book::Book;
use crate::book::BookView;

verus! {

/// The views of a sequence of book records, in the same order.
pub open spec fn book_views(s: Seq<Book>) -> Seq<BookView> {
    s.map_values(|b: Book| b@)
}

/// The catalog: an owned growable array of book records. Exclusive access
/// across concurrent callers is the embedding program's duty (one lock
/// around each operation); the operations themselves are sequential.
pub struct Catalog {
    books: Vec<Book>,
}

impl View for Catalog {
    type V = Seq<BookView>;

    closed spec fn view(&self) -> Seq<BookView> {
        book_views(self.books@)
    }
}

impl Catalog {
    /// An empty catalog.
    pub fn new() -> (c: Catalog)
        ensures
            c@ == Seq::<BookView>::empty(),
    {
        let c = Catalog { books: Vec::new() };
        proof {
            assert(c@ =~= Seq::<BookView>::empty());
        }
        c
    }

    /// How many records the catalog holds.
    pub fn len(&self) -> (n: usize)
        ensures
            n == self@.len(),
    {
        self.books.len()
    }

    /// Returns a snapshot copy of the current sequence, in current order.
    /// Read-only: the catalog is not changed.
    pub fn list(&self) -> (r: Vec<Book>)
        ensures
            book_views(r@) == self@,
    {
        let mut out: Vec<Book> = Vec::new();
        let mut i: usize = 0;
        while i < self.books.len()
            invariant
                i <= self.books.len(),
                out@.len() == i,
                forall|j: int| 0 <= j < i ==> #[trigger] out@[j]@ == self.books@[j]@,
            decreases self.books.len() - i,
        {
            out.push(self.books[i].clone());
            i = i + 1;
        }
        proof {
            assert(book_views(out@) =~= self@);
        }
        out
    }

    /// Inserts a record at the end of the sequence. Always succeeds; the new
    /// record's positional index equals the catalog's length before the call.
    pub fn append(&mut self, book: Book)
        ensures
            final(self)@ == old(self)@.push(book@),
    {
        self.books.push(book);
        proof {
            assert(self@ =~= old(self)@.push(book@));
        }
    }

    /// Removes the record at position `index` in current order, if `index`
    /// is within bounds, and reports whether a removal occurred. On success
    /// the length shrinks by exactly one and every record after the removed
    /// position shifts down by one; out of bounds, the catalog is unchanged.
    pub fn remove_at(&mut self, index: usize) -> (removed: bool)
        ensures
            removed == (index < old(self)@.len()),
            removed ==> final(self)@ == old(self)@.remove(index as int),
            removed ==> final(self)@.len() == old(self)@.len() - 1,
            !removed ==> final(self)@ == old(self)@,
    {
        if index < self.books.len() {
            let _removed_book = self.books.remove(index);
            proof {
                assert(self@ =~= old(self)@.remove(index as int));
            }
            true
        } else {
            false
        }
    }
}

} // verus!
