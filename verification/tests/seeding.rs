use book_catalog::get_books;
use book_catalog::seed_catalog;
use book_catalog::Book;

#[test]
fn seed_catalog_holds_the_five_fixed_records() {
    let c = seed_catalog();
    let listed = c.list();
    assert_eq!(listed.len(), 5);
    let expected = [
        ("The Hitchhiker's Guide to the Galaxy", 1979),
        ("The Restaurant at the End of the Universe", 1980),
        ("Life, the Universe and Everything", 1982),
        ("So Long, and Thanks for All the Fish", 1984),
        ("Mostly Harmless", 1992),
    ];
    for (i, (title, year)) in expected.iter().enumerate() {
        assert_eq!(
            listed[i],
            Book::new(title.to_string(), "Douglas Adams".to_string(), *year)
        );
    }
}

#[test]
fn seed_catalog_lists_as_json() {
    let c = seed_catalog();
    let resp = get_books(&c);
    assert!(resp
        .body
        .starts_with("[{\"title\":\"The Hitchhiker's Guide to the Galaxy\",\"author\":\"Douglas Adams\",\"year\":1979},"));
    assert!(resp
        .body
        .ends_with("{\"title\":\"Mostly Harmless\",\"author\":\"Douglas Adams\",\"year\":1992}]"));
}
