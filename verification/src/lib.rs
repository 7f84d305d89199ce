//! An in-memory book catalog with verified operations, together with the
//! request-level logic of a small HTTP service over it: handlers that map
//! decoded requests to catalog operations and status codes, a decimal
//! id parser for the delete route, and a JSON encoder for the listing.

use vstd::prelude::*;

mod book;
mod catalog;
mod handler;
mod json;
mod laws;
mod numeric;
mod seed;
mod text;

pub use book::Book;
pub use book::BookView;
pub use catalog::Catalog;
pub use catalog::book_views;
pub use handler::create_book;
pub use handler::delete_book;
pub use handler::delete_book_segment;
pub use handler::get_books;
pub use handler::HttpResponse;
pub use handler::HTTP_BAD_REQUEST;
pub use handler::HTTP_CREATED;
pub use handler::HTTP_NO_CONTENT;
pub use handler::HTTP_NOT_FOUND;
pub use handler::HTTP_OK;
pub use handler::MAX_BODY_BYTES;
pub use json::escape_char;
pub use json::escape_string;
pub use json::hex_char;
pub use json::json_book;
pub use json::json_books;
pub use json::json_items;
pub use json::json_string;
pub use json::render_books_json;
pub use laws::after_appends;
pub use laws::lemma_appends_in_order;
pub use laws::lemma_list_idempotent;
pub use laws::lemma_remove_shifts_down;
pub use numeric::all_digits;
pub use numeric::append_decimal;
pub use numeric::dec_str;
pub use numeric::dec_val;
pub use numeric::digit_char;
pub use numeric::digit_val;
pub use numeric::is_digit;
pub use numeric::parse_id;
pub use numeric::valid_id;
pub use seed::seed_books;
pub use seed::seed_catalog;

verus! {

} // verus!
