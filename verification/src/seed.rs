//! The fixed records the catalog is seeded with at process start.

use vstd::prelude::*;
use crate::book::Book;
use crate::book::BookView;
use crate::catalog::Catalog;

verus! {

/// The five seed records, in the order they are loaded.
pub open spec fn seed_books() -> Seq<BookView> {
    seq![
        BookView {
            title: "The Hitchhiker's Guide to the Galaxy"@,
            author: "Douglas Adams"@,
            year: 1979,
        },
        BookView {
            title: "The Restaurant at the End of the Universe"@,
            author: "Douglas Adams"@,
            year: 1980,
        },
        BookView { title: "Life, the Universe and Everything"@, author: "Douglas Adams"@, year: 1982 },
        BookView {
            title: "So Long, and Thanks for All the Fish"@,
            author: "Douglas Adams"@,
            year: 1984,
        },
        BookView { title: "Mostly Harmless"@, author: "Douglas Adams"@, year: 1992 },
    ]
}

/// A catalog holding exactly the seed records, in order.
pub fn seed_catalog() -> (c: Catalog)
    ensures
        c@ == seed_books(),
{
    let mut c = Catalog::new();
    c.append(
        Book::new(
            "The Hitchhiker's Guide to the Galaxy".to_owned(),
            "Douglas Adams".to_owned(),
            1979,
        ),
    );
    c.append(
        Book::new(
            "The Restaurant at the End of the Universe".to_owned(),
            "Douglas Adams".to_owned(),
            1980,
        ),
    );
    c.append(
        Book::new("Life, the Universe and Everything".to_owned(), "Douglas Adams".to_owned(), 1982),
    );
    c.append(
        Book::new(
            "So Long, and Thanks for All the Fish".to_owned(),
            "Douglas Adams".to_owned(),
            1984,
        ),
    );
    c.append(Book::new("Mostly Harmless".to_owned(), "Douglas Adams".to_owned(), 1992));
    proof {
        assert(c@ =~= seed_books());
    }
    c
}

} // verus!
