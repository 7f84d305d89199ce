use book_catalog::render_books_json;
use book_catalog::Book;

fn book(title: &str, author: &str, year: u32) -> Book {
    Book::new(title.to_owned(), author.to_owned(), year)
}

#[test]
fn empty_catalog_renders_as_empty_array() {
    let body = render_books_json(&vec![]);
    assert_eq!(body, "[]");
}

#[test]
fn one_record_renders_with_three_fields_in_order() {
    let body = render_books_json(&vec![book("Mostly Harmless", "Douglas Adams", 1992)]);
    assert_eq!(
        body,
        "[{\"title\":\"Mostly Harmless\",\"author\":\"Douglas Adams\",\"year\":1992}]"
    );
}

#[test]
fn records_are_separated_by_commas() {
    let body = render_books_json(&vec![book("A", "a", 1), book("B", "b", 2)]);
    assert_eq!(
        body,
        "[{\"title\":\"A\",\"author\":\"a\",\"year\":1},{\"title\":\"B\",\"author\":\"b\",\"year\":2}]"
    );
}

#[test]
fn quotes_and_backslashes_are_escaped() {
    let body = render_books_json(&vec![book("say \"hi\"", "a\\b", 1)]);
    assert_eq!(
        body,
        "[{\"title\":\"say \\\"hi\\\"\",\"author\":\"a\\\\b\",\"year\":1}]"
    );
}

#[test]
fn named_control_characters_use_short_escapes() {
    let body = render_books_json(&vec![book("a\nb\tc\rd", "e\u{8}f\u{c}g", 7)]);
    assert_eq!(
        body,
        "[{\"title\":\"a\\nb\\tc\\rd\",\"author\":\"e\\bf\\fg\",\"year\":7}]"
    );
}

#[test]
fn other_control_characters_use_hex_escapes() {
    let body = render_books_json(&vec![book("x\u{1}y\u{1f}z", "ok", 0)]);
    assert_eq!(
        body,
        "[{\"title\":\"x\\u0001y\\u001fz\",\"author\":\"ok\",\"year\":0}]"
    );
}

#[test]
fn non_ascii_text_stands_as_itself() {
    let body = render_books_json(&vec![book("Der Schwarm", "Schätzing", 2004)]);
    assert_eq!(
        body,
        "[{\"title\":\"Der Schwarm\",\"author\":\"Schätzing\",\"year\":2004}]"
    );
}

#[test]
fn largest_year_renders_all_digits() {
    let body = render_books_json(&vec![book("t", "a", u32::MAX)]);
    assert_eq!(body, "[{\"title\":\"t\",\"author\":\"a\",\"year\":4294967295}]");
}
