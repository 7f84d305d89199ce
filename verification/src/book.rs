//! The book record: title, author and year of publication.

use vstd::prelude::*;

verus! {

/// The mathematical value of a book record: the two text fields as
/// character sequences, and the year.
pub struct BookView {
    pub title: Seq<char>,
    pub author: Seq<char>,
    pub year: u32,
}

/// A single record of the catalog. A book carries no identity of its own:
/// its position in the catalog is its only handle.
#[derive(Debug)]
pub struct Book {
    pub title: String,
    pub author: String,
    pub year: u32,
}

impl View for Book {
    type V = BookView;

    open spec fn view(&self) -> BookView {
        BookView { title: self.title@, author: self.author@, year: self.year }
    }
}

impl Clone for Book {
    fn clone(&self) -> (r: Self)
        ensures
            r@ == self@,
    {
        Book { title: self.title.clone(), author: self.author.clone(), year: self.year }
    }
}

impl PartialEq for Book {
    fn eq(&self, other: &Book) -> (r: bool) {
        self.title == other.title && self.author == other.author && self.year == other.year
    }
}

impl vstd::std_specs::cmp::PartialEqSpecImpl for Book {
    open spec fn obeys_eq_spec() -> bool {
        true
    }

    open spec fn eq_spec(&self, other: &Book) -> bool {
        self@ == other@
    }
}

impl Book {
    /// Builds a record from its three fields.
    pub fn new(title: String, author: String, year: u32) -> (b: Book)
        ensures
            b@ == (BookView { title: title@, author: author@, year: year }),
    {
        Book { title, author, year }
    }
}

} // verus!
