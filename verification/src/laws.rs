//! The catalog's laws: what repeated operations compose to, stated over the
//! views that the operations' own contracts use.

use vstd::prelude::*;
use crate::book::Book;
use crate::book::BookView;
use crate::catalog::book_views;

verus! {

/// The catalog view after appending each record of `books` in order,
/// starting from `s`: what a run of Append calls composes to, each call
/// adding one record at the end as its contract states.
pub open spec fn after_appends(s: Seq<BookView>, books: Seq<BookView>) -> Seq<BookView>
    decreases books.len(),
{
    if books.len() == 0 {
        s
    } else {
        after_appends(s, books.drop_last()).push(books.last())
    }
}

/// Any run of successful appends leaves exactly the prior records followed
/// by the appended records, in the order they were appended — so a listing
/// taken afterwards returns just those records, and the final length is the
/// prior length plus the number of appends, none lost. Under the store's
/// exclusive lock every effective history of concurrent appends is such a
/// run, each call atomic.
pub proof fn lemma_appends_in_order(s: Seq<BookView>, books: Seq<BookView>)
    ensures
        after_appends(s, books) == s + books,
        after_appends(s, books).len() == s.len() + books.len(),
    decreases books.len(),
{
    if books.len() == 0 {
        assert(after_appends(s, books) =~= s + books);
    } else {
        lemma_appends_in_order(s, books.drop_last());
        assert(after_appends(s, books) =~= s + books);
    }
}

/// Listing is deterministic and read-only: its contract pins each snapshot's
/// views to the catalog's view, so two listings with no mutation in between
/// hold the same records.
pub proof fn lemma_list_idempotent(c: Seq<BookView>, first: Seq<Book>, second: Seq<Book>)
    requires
        book_views(first) == c,
        book_views(second) == c,
    ensures
        book_views(first) == book_views(second),
{
}

/// After a removal at position `i`, the record that stood at any position
/// `j > i` stands at position `j - 1`.
pub proof fn lemma_remove_shifts_down(s: Seq<BookView>, i: int, j: int)
    requires
        0 <= i < s.len(),
        i < j < s.len(),
    ensures
        s.remove(i)[j - 1] == s[j],
{
}

} // verus!
