//! The request handlers: each maps one decoded HTTP request to one catalog
//! operation and one response. No handler performs more than one catalog
//! operation, and none mutates shared state outside the catalog.
//!
//! The embedding program does the HTTP work — routing, reading the body,
//! structural JSON decoding of a posted record, enforcing the body size cap —
//! and hands each handler plain values.

use vstd::prelude::*;
use crate::book::Book;
use crate::catalog::Catalog;
use crate::json::json_books;
use crate::json::render_books_json;
use crate::numeric::dec_val;
use crate::numeric::parse_id;
use crate::numeric::valid_id;

verus! {

/// The listing succeeded.
pub const HTTP_OK: u16 = 200;

/// A record was created.
pub const HTTP_CREATED: u16 = 201;

/// A record was deleted; nothing to say back.
pub const HTTP_NO_CONTENT: u16 = 204;

/// The request was malformed: an undecodable body, or an id segment that is
/// not a non-negative integer.
pub const HTTP_BAD_REQUEST: u16 = 400;

/// No record exists at the requested position.
pub const HTTP_NOT_FOUND: u16 = 404;

/// The largest request body the create route accepts, in bytes.
pub const MAX_BODY_BYTES: u64 = 16384;

/// What a handler answers: a status code and a body (empty for everything
/// but the listing).
pub struct HttpResponse {
    pub status: u16,
    pub body: String,
}

/// GET /books: responds 200 with the JSON array of the current records, in
/// current order. Read-only: the catalog is not touched.
pub fn get_books(catalog: &Catalog) -> (resp: HttpResponse)
    ensures
        resp.status == HTTP_OK,
        resp.body@ == json_books(catalog@),
{
    let books = catalog.list();
    let body = render_books_json(&books);
    HttpResponse { status: HTTP_OK, body }
}

/// POST /books: `body` is the outcome of structurally decoding the request
/// body as a record. A decoded record is appended — its position is the old
/// length — and the answer is 201; an undecodable body is answered 400 and
/// the catalog is untouched. The body of the answer is empty either way.
pub fn create_book(catalog: &mut Catalog, body: Option<Book>) -> (resp: HttpResponse)
    ensures
        resp.body@ == Seq::<char>::empty(),
        match body {
            Some(book) => resp.status == HTTP_CREATED && final(catalog)@ == old(
                catalog,
            )@.push(book@),
            None => resp.status == HTTP_BAD_REQUEST && final(catalog)@ == old(catalog)@,
        },
{
    match body {
        Some(book) => {
            catalog.append(book);
            HttpResponse { status: HTTP_CREATED, body: String::new() }
        },
        None => HttpResponse { status: HTTP_BAD_REQUEST, body: String::new() },
    }
}

/// DELETE /books/{id}, after the id segment parsed: removes the record at
/// position `id` and answers 204, or answers 404 leaving the catalog
/// unchanged when no record sits there. The body of the answer is empty.
pub fn delete_book(catalog: &mut Catalog, id: u64) -> (resp: HttpResponse)
    ensures
        resp.body@ == Seq::<char>::empty(),
        id < old(catalog)@.len() ==> resp.status == HTTP_NO_CONTENT && final(catalog)@ == old(
            catalog,
        )@.remove(id as int),
        id >= old(catalog)@.len() ==> resp.status == HTTP_NOT_FOUND && final(catalog)@ == old(
            catalog,
        )@,
{
    let len: usize = catalog.len();
    if id < len as u64 {
        let removed = catalog.remove_at(id as usize);
        proof {
            assert(removed);
        }
        HttpResponse { status: HTTP_NO_CONTENT, body: String::new() }
    } else {
        HttpResponse { status: HTTP_NOT_FOUND, body: String::new() }
    }
}

/// DELETE /books/{id} from the raw path segment: a segment that is not a
/// non-negative integer is answered 400 before the catalog is reached;
/// otherwise the delete handler decides between 204 and 404.
pub fn delete_book_segment(catalog: &mut Catalog, segment: &str) -> (resp: HttpResponse)
    ensures
        resp.body@ == Seq::<char>::empty(),
        !valid_id(segment@) ==> resp.status == HTTP_BAD_REQUEST && final(catalog)@ == old(
            catalog,
        )@,
        valid_id(segment@) && dec_val(segment@) < old(catalog)@.len() ==> resp.status
            == HTTP_NO_CONTENT && final(catalog)@ == old(catalog)@.remove(dec_val(segment@)),
        valid_id(segment@) && dec_val(segment@) >= old(catalog)@.len() ==> resp.status
            == HTTP_NOT_FOUND && final(catalog)@ == old(catalog)@,
{
    match parse_id(segment) {
        Some(id) => {
            proof {
                assert(valid_id(segment@));
                assert(id as int == dec_val(segment@));
            }
            delete_book(catalog, id)
        },
        None => HttpResponse { status: HTTP_BAD_REQUEST, body: String::new() },
    }
}

} // verus!
