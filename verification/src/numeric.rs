//! Decimal numerals: reading a non-negative integer from a path segment,
//! and writing one into a response body.

use vstd::prelude::*;
use vstd::string::StrSliceExecFns;
use crate::text::push_char;

verus! {

/// Whether `c` is an ASCII decimal digit.
pub open spec fn is_digit(c: char) -> bool {
    '0' as int <= c as int <= '9' as int
}

/// The numeric value of a digit character.
pub open spec fn digit_val(c: char) -> int {
    c as int - '0' as int
}

/// Whether every character of `s` is a decimal digit.
pub open spec fn all_digits(s: Seq<char>) -> bool {
    forall|i: int| 0 <= i < s.len() ==> is_digit(#[trigger] s[i])
}

/// The value of `s` read as a decimal numeral, most significant digit first.
pub open spec fn dec_val(s: Seq<char>) -> int
    decreases s.len(),
{
    if s.len() == 0 {
        0
    } else {
        dec_val(s.drop_last()) * 10 + digit_val(s.last())
    }
}

/// The digit character of `d`, for `0 <= d <= 9`.
pub open spec fn digit_char(d: int) -> char {
    if d == 0 {
        '0'
    } else if d == 1 {
        '1'
    } else if d == 2 {
        '2'
    } else if d == 3 {
        '3'
    } else if d == 4 {
        '4'
    } else if d == 5 {
        '5'
    } else if d == 6 {
        '6'
    } else if d == 7 {
        '7'
    } else if d == 8 {
        '8'
    } else {
        '9'
    }
}

/// The decimal numeral of `n`: its digits, most significant first, with no
/// leading zero except for the numeral of zero itself.
pub open spec fn dec_str(n: nat) -> Seq<char>
    decreases n,
{
    if n < 10 {
        seq![digit_char(n as int)]
    } else {
        dec_str(n / 10).push(digit_char((n % 10) as int))
    }
}

/// Whether `s` is a well-formed id segment: one or more decimal digits whose
/// value fits in a u64.
pub open spec fn valid_id(s: Seq<char>) -> bool {
    s.len() > 0 && all_digits(s) && 0 <= dec_val(s) <= u64::MAX
}

/// A string of digits names a non-negative value.
proof fn lemma_dec_val_nonneg(s: Seq<char>)
    requires
        all_digits(s),
    ensures
        dec_val(s) >= 0,
    decreases s.len(),
{
    if s.len() > 0 {
        assert(forall|i: int| 0 <= i < s.len() - 1 ==> #[trigger] s.drop_last()[i] == s[i]);
        lemma_dec_val_nonneg(s.drop_last());
        assert(dec_val(s.drop_last()) * 10 >= 0);
    }
}

/// Reading further digits never lowers the value already read.
proof fn lemma_dec_val_prefix_le(s: Seq<char>, k: int)
    requires
        all_digits(s),
        0 <= k <= s.len(),
    ensures
        dec_val(s.subrange(0, k)) <= dec_val(s),
    decreases s.len() - k,
{
    if k == s.len() {
        assert(s.subrange(0, k) =~= s);
    } else {
        let p = s.subrange(0, k);
        let q = s.subrange(0, k + 1);
        assert(q.drop_last() =~= p);
        assert(all_digits(p));
        lemma_dec_val_nonneg(p);
        assert(dec_val(q) == dec_val(p) * 10 + digit_val(s[k]));
        assert(dec_val(p) * 10 >= dec_val(p));
        assert(digit_val(s[k]) >= 0);
        lemma_dec_val_prefix_le(s, k + 1);
    }
}

/// If the numeral read up to and including position `i` already exceeds
/// u64::MAX, the whole segment is not a valid id.
proof fn lemma_reject_overflow(s: Seq<char>, i: int)
    requires
        0 <= i < s.len(),
        dec_val(s.subrange(0, i + 1)) > u64::MAX,
    ensures
        !valid_id(s),
{
    if all_digits(s) {
        lemma_dec_val_prefix_le(s, i + 1);
    }
}

/// Parses a path segment as a non-negative decimal integer. Returns the
/// value exactly when the segment is one or more digits and the value fits
/// in a u64; returns nothing on an empty segment, a non-digit character, or
/// a value too large.
pub fn parse_id(s: &str) -> (r: Option<u64>)
    ensures
        valid_id(s@) ==> r == Some(dec_val(s@) as u64),
        !valid_id(s@) ==> r is None,
{
    let n: usize = s.unicode_len();
    if n == 0 {
        return None;
    }
    let mut v: u64 = 0;
    let mut i: usize = 0;
    while i < n
        invariant
            0 < n == s@.len(),
            i <= n,
            all_digits(s@.subrange(0, i as int)),
            v == dec_val(s@.subrange(0, i as int)),
        decreases n - i,
    {
        let c = s.get_char(i);
        let cu: u32 = c as u32;
        if cu < 48 || cu > 57 {
            proof {
                assert(!is_digit(s@[i as int]));
            }
            return None;
        }
        let d: u64 = (cu - 48) as u64;
        proof {
            assert(is_digit(s@[i as int]));
            assert(d as int == digit_val(s@[i as int]));
            assert(s@.subrange(0, i as int + 1).drop_last() =~= s@.subrange(0, i as int));
            assert(dec_val(s@.subrange(0, i as int + 1)) == (v as int) * 10 + (d as int));
            assert(forall|j: int|
                0 <= j < i as int + 1 ==> is_digit(#[trigger] s@.subrange(0, i as int + 1)[j]));
        }
        let m: u64 = match v.checked_mul(10) {
            Some(m) => m,
            None => {
                proof {
                    lemma_reject_overflow(s@, i as int);
                }
                return None;
            },
        };
        let nv: u64 = match m.checked_add(d) {
            Some(nv) => nv,
            None => {
                proof {
                    lemma_reject_overflow(s@, i as int);
                }
                return None;
            },
        };
        v = nv;
        i = i + 1;
    }
    proof {
        assert(s@.subrange(0, n as int) =~= s@);
    }
    Some(v)
}

/// The digit character of `d`, executably.
fn digit_char_exec(d: u32) -> (c: char)
    requires
        d <= 9,
    ensures
        c == digit_char(d as int),
{
    if d == 0 {
        '0'
    } else if d == 1 {
        '1'
    } else if d == 2 {
        '2'
    } else if d == 3 {
        '3'
    } else if d == 4 {
        '4'
    } else if d == 5 {
        '5'
    } else if d == 6 {
        '6'
    } else if d == 7 {
        '7'
    } else if d == 8 {
        '8'
    } else {
        '9'
    }
}

/// Appends the decimal numeral of `n` to `out`.
pub fn append_decimal(n: u32, out: &mut String)
    ensures
        final(out)@ == old(out)@ + dec_str(n as nat),
    decreases n,
{
    if n < 10 {
        push_char(out, digit_char_exec(n));
        proof {
            assert(out@ =~= old(out)@ + dec_str(n as nat));
        }
    } else {
        append_decimal(n / 10, out);
        push_char(out, digit_char_exec(n % 10));
        proof {
            assert(out@ =~= old(out)@ + dec_str(n as nat));
        }
    }
}

} // verus!
