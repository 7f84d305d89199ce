use book_catalog::Book;
use book_catalog::Catalog;

fn book(title: &str, author: &str, year: u32) -> Book {
    Book::new(title.to_owned(), author.to_owned(), year)
}

#[test]
fn new_catalog_is_empty() {
    let c = Catalog::new();
    assert_eq!(c.len(), 0);
    assert!(c.list().is_empty());
}

#[test]
fn appends_list_in_order() {
    let mut c = Catalog::new();
    c.append(book("A", "a", 1));
    c.append(book("B", "b", 2));
    c.append(book("C", "c", 3));
    let listed = c.list();
    assert_eq!(listed.len(), 3);
    assert_eq!(listed[0], book("A", "a", 1));
    assert_eq!(listed[1], book("B", "b", 2));
    assert_eq!(listed[2], book("C", "c", 3));
}

#[test]
fn list_twice_without_mutation_is_identical() {
    let mut c = Catalog::new();
    c.append(book("A", "a", 1));
    c.append(book("B", "b", 2));
    let first = c.list();
    let second = c.list();
    assert_eq!(first, second);
}

#[test]
fn list_returns_a_snapshot_copy() {
    let mut c = Catalog::new();
    c.append(book("A", "a", 1));
    let snapshot = c.list();
    c.append(book("B", "b", 2));
    assert_eq!(snapshot.len(), 1);
    assert_eq!(c.len(), 2);
}

#[test]
fn remove_in_bounds_removes_exactly_one() {
    let mut c = Catalog::new();
    c.append(book("A", "a", 1));
    c.append(book("B", "b", 2));
    c.append(book("C", "c", 3));
    let removed = c.remove_at(1);
    assert!(removed);
    assert_eq!(c.len(), 2);
    let listed = c.list();
    assert_eq!(listed[0], book("A", "a", 1));
    assert_eq!(listed[1], book("C", "c", 3));
}

#[test]
fn remove_at_length_leaves_catalog_unchanged() {
    let mut c = Catalog::new();
    c.append(book("A", "a", 1));
    c.append(book("B", "b", 2));
    let removed = c.remove_at(2);
    assert!(!removed);
    assert_eq!(c.len(), 2);
    assert_eq!(c.list(), vec![book("A", "a", 1), book("B", "b", 2)]);
}

#[test]
fn remove_shifts_later_records_down_by_one() {
    let mut c = Catalog::new();
    c.append(book("A", "a", 1));
    c.append(book("B", "b", 2));
    c.append(book("C", "c", 3));
    c.append(book("D", "d", 4));
    let removed = c.remove_at(1);
    assert!(removed);
    let listed = c.list();
    // C stood at 2, D at 3; they now stand at 1 and 2.
    assert_eq!(listed[1], book("C", "c", 3));
    assert_eq!(listed[2], book("D", "d", 4));
}

#[test]
fn many_appends_all_take_effect() {
    let mut c = Catalog::new();
    let initial = c.len();
    let n: u32 = 25;
    for k in 0..n {
        c.append(book("T", "A", k));
    }
    assert_eq!(c.len(), initial + n as usize);
    let listed = c.list();
    for k in 0..n {
        assert_eq!(listed[k as usize], book("T", "A", k));
    }
}
