//! Encoding the catalog as JSON: the body of the listing response.
//!
//! A record becomes an object with its three fields in order; the catalog
//! becomes an array of those objects. String values are escaped as JSON
//! demands: quote, backslash, and every control character.

use vstd::prelude::*;
use vstd::string::StrSliceExecFns;
use vstd::string::StringExecFns;
use crate::book::Book;
use crate::book::BookView;
use crate::catalog::book_views;
use crate::numeric::dec_str;
use crate::numeric::digit_char;
use crate::text::push_char;

verus! {

/// The hexadecimal digit character of `d`, for `0 <= d <= 15`, lower case.
pub open spec fn hex_char(d: int) -> char {
    if d < 10 {
        digit_char(d)
    } else if d == 10 {
        'a'
    } else if d == 11 {
        'b'
    } else if d == 12 {
        'c'
    } else if d == 13 {
        'd'
    } else if d == 14 {
        'e'
    } else {
        'f'
    }
}

/// How one character is written inside a JSON string literal: quote and
/// backslash get a backslash escape, the control characters with short
/// escapes get those, every other control character is written `\u00XX`,
/// and all remaining characters stand as themselves.
pub open spec fn escape_char(c: char) -> Seq<char> {
    if c == '"' {
        seq!['\\', '"']
    } else if c == '\\' {
        seq!['\\', '\\']
    } else if c as int == 8 {
        seq!['\\', 'b']
    } else if c as int == 12 {
        seq!['\\', 'f']
    } else if c == '\n' {
        seq!['\\', 'n']
    } else if c == '\r' {
        seq!['\\', 'r']
    } else if c == '\t' {
        seq!['\\', 't']
    } else if (c as int) < 32 {
        seq!['\\', 'u', '0', '0', hex_char(c as int / 16), hex_char(c as int % 16)]
    } else {
        seq![c]
    }
}

/// The characters of `s`, each escaped, in order.
pub open spec fn escape_string(s: Seq<char>) -> Seq<char>
    decreases s.len(),
{
    if s.len() == 0 {
        Seq::<char>::empty()
    } else {
        escape_string(s.drop_last()) + escape_char(s.last())
    }
}

/// The JSON string literal for `s`: the escaped characters in quotes.
pub open spec fn json_string(s: Seq<char>) -> Seq<char> {
    "\""@ + escape_string(s) + "\""@
}

/// The JSON object for one record: title, author, year, in that order.
pub open spec fn json_book(b: BookView) -> Seq<char> {
    "{\"title\":"@ + json_string(b.title) + ",\"author\":"@ + json_string(b.author)
        + ",\"year\":"@ + dec_str(b.year as nat) + "}"@
}

/// The record objects joined by commas.
pub open spec fn json_items(s: Seq<BookView>) -> Seq<char>
    decreases s.len(),
{
    if s.len() == 0 {
        Seq::<char>::empty()
    } else if s.len() == 1 {
        json_book(s[0])
    } else {
        json_items(s.drop_last()) + ","@ + json_book(s.last())
    }
}

/// The JSON array for a sequence of records.
pub open spec fn json_books(s: Seq<BookView>) -> Seq<char> {
    "["@ + json_items(s) + "]"@
}

/// Appends `\u00XX` for the control character `c`.
fn append_control_escape(c: char, out: &mut String)
    requires
        (c as int) < 32,
        c != '"',
        c as int != 8,
        c as int != 12,
        c != '\n',
        c != '\r',
        c != '\t',
    ensures
        final(out)@ == old(out)@ + escape_char(c),
{
    let cu: u32 = c as u32;
    push_char(out, '\\');
    push_char(out, 'u');
    push_char(out, '0');
    push_char(out, '0');
    push_char(out, hex_char_exec(cu / 16));
    push_char(out, hex_char_exec(cu % 16));
    proof {
        assert(c != '\\');
        assert(out@ =~= old(out)@ + escape_char(c));
    }
}

/// The hexadecimal digit character of `d`, executably.
fn hex_char_exec(d: u32) -> (c: char)
    requires
        d <= 15,
    ensures
        c == hex_char(d as int),
{
    if d == 0 {
        '0'
    } else if d == 1 {
        '1'
    } else if d == 2 {
        '2'
    } else if d == 3 {
        '3'
    } else if d == 4 {
        '4'
    } else if d == 5 {
        '5'
    } else if d == 6 {
        '6'
    } else if d == 7 {
        '7'
    } else if d == 8 {
        '8'
    } else if d == 9 {
        '9'
    } else if d == 10 {
        'a'
    } else if d == 11 {
        'b'
    } else if d == 12 {
        'c'
    } else if d == 13 {
        'd'
    } else if d == 14 {
        'e'
    } else {
        'f'
    }
}

/// Appends `c` to `out` in its escaped form.
fn append_escaped(c: char, out: &mut String)
    ensures
        final(out)@ == old(out)@ + escape_char(c),
{
    if c == '"' {
        push_char(out, '\\');
        push_char(out, '"');
    } else if c == '\\' {
        push_char(out, '\\');
        push_char(out, '\\');
    } else if c == '\u{8}' {
        push_char(out, '\\');
        push_char(out, 'b');
    } else if c == '\u{c}' {
        push_char(out, '\\');
        push_char(out, 'f');
    } else if c == '\n' {
        push_char(out, '\\');
        push_char(out, 'n');
    } else if c == '\r' {
        push_char(out, '\\');
        push_char(out, 'r');
    } else if c == '\t' {
        push_char(out, '\\');
        push_char(out, 't');
    } else if (c as u32) < 32 {
        append_control_escape(c, out);
    } else {
        push_char(out, c);
    }
    proof {
        assert(out@ =~= old(out)@ + escape_char(c));
    }
}

/// Appends the JSON string literal for `s` to `out`.
fn append_json_string(s: &str, out: &mut String)
    ensures
        final(out)@ == old(out)@ + json_string(s@),
{
    out.append("\"");
    let n: usize = s.unicode_len();
    let mut i: usize = 0;
    while i < n
        invariant
            n == s@.len(),
            i <= n,
            out@ == old(out)@ + "\""@ + escape_string(s@.subrange(0, i as int)),
        decreases n - i,
    {
        let c = s.get_char(i);
        proof {
            assert(s@.subrange(0, i as int + 1).drop_last() =~= s@.subrange(0, i as int));
            assert(s@.subrange(0, i as int + 1).last() == s@[i as int]);
        }
        append_escaped(c, out);
        proof {
            assert(out@ =~= old(out)@ + "\""@ + escape_string(s@.subrange(0, i as int + 1)));
        }
        i = i + 1;
    }
    out.append("\"");
    proof {
        assert(s@.subrange(0, n as int) =~= s@);
        assert(out@ =~= old(out)@ + json_string(s@));
    }
}

/// Appends the JSON object for one record to `out`.
fn append_json_book(b: &Book, out: &mut String)
    ensures
        final(out)@ == old(out)@ + json_book(b@),
{
    out.append("{\"title\":");
    append_json_string(b.title.as_str(), out);
    out.append(",\"author\":");
    append_json_string(b.author.as_str(), out);
    out.append(",\"year\":");
    crate::numeric::append_decimal(b.year, out);
    out.append("}");
    proof {
        assert(out@ =~= old(out)@ + json_book(b@));
    }
}

/// Encodes a snapshot of records as the JSON array the listing responds with.
pub fn render_books_json(books: &Vec<Book>) -> (r: String)
    ensures
        r@ == json_books(book_views(books@)),
{
    let ghost views = book_views(books@);
    let mut out = String::new();
    out.append("[");
    let mut i: usize = 0;
    while i < books.len()
        invariant
            i <= books.len(),
            views == book_views(books@),
            views.len() == books@.len(),
            out@ == "["@ + json_items(views.subrange(0, i as int)),
        decreases books.len() - i,
    {
        if i > 0 {
            out.append(",");
        }
        append_json_book(&books[i], &mut out);
        proof {
            assert(views.subrange(0, i as int + 1).drop_last() =~= views.subrange(0, i as int));
            assert(views.subrange(0, i as int + 1).last() == books@[i as int]@);
            if i == 0 {
                assert(json_items(views.subrange(0, 1)) == json_book(views[0]));
            }
            assert(out@ =~= "["@ + json_items(views.subrange(0, i as int + 1)));
        }
        i = i + 1;
    }
    out.append("]");
    proof {
        assert(views.subrange(0, books@.len() as int) =~= views);
        assert(out@ =~= json_books(book_views(books@)));
    }
    out
}

} // verus!
