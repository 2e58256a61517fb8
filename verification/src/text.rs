//! Text helpers for the configuration parser: locating the command
//! separator, comparing a token against a command word, and reading an
//! unsigned decimal integer.

use vstd::prelude::*;
use vstd::string::{StrSliceExecFns, StringExecFns};

verus! {

/// Whether the character is a decimal digit.
pub open spec fn is_dec_digit(c: char) -> bool {
    48 <= c as u32 && c as u32 <= 57
}

/// The value of a decimal digit.
pub open spec fn dec_digit_val(c: char) -> int {
    c as u32 as int - 48
}

/// Whether every character of the text is a decimal digit.
pub open spec fn all_dec_digits(s: Seq<char>) -> bool {
    forall|i: int| 0 <= i < s.len() ==> is_dec_digit(#[trigger] s[i])
}

/// The number a sequence of decimal digits denotes, most significant digit
/// first; the empty sequence denotes zero.
pub open spec fn dec_val(s: Seq<char>) -> int
    decreases s.len(),
{
    if s.len() == 0 {
        0
    } else {
        10 * dec_val(s.drop_last()) + dec_digit_val(s.last())
    }
}

/// The digit portion of an optionally signed integer literal: the text
/// after one leading `+`, or the whole text.
pub open spec fn unsigned_digits(s: Seq<char>) -> Seq<char> {
    if s.len() > 0 && s[0] == '+' {
        s.subrange(1, s.len() as int)
    } else {
        s
    }
}

/// Whether the text is an integer literal that parsing into a `usize`
/// accepts: an optional leading `+`, then at least one decimal digit,
/// denoting a value that fits the type.
pub open spec fn is_usize_literal(s: Seq<char>) -> bool {
    &&& unsigned_digits(s).len() > 0
    &&& all_dec_digits(unsigned_digits(s))
    &&& dec_val(unsigned_digits(s)) <= usize::MAX
}

/// The value an integer literal denotes.
pub open spec fn usize_literal_val(s: Seq<char>) -> int {
    dec_val(unsigned_digits(s))
}

/// A sequence of digits denotes a non-negative number.
proof fn lemma_dec_val_nonneg(s: Seq<char>)
    requires
        all_dec_digits(s),
    ensures
        dec_val(s) >= 0,
    decreases s.len(),
{
    if s.len() > 0 {
        assert(all_dec_digits(s.drop_last()));
        lemma_dec_val_nonneg(s.drop_last());
    }
}

/// Extending a digit sequence on the right can only grow its value.
proof fn lemma_dec_val_prefix_le(s: Seq<char>, i: int)
    requires
        all_dec_digits(s),
        0 <= i <= s.len(),
    ensures
        dec_val(s.subrange(0, i)) <= dec_val(s),
    decreases s.len() - i,
{
    if i == s.len() {
        assert(s.subrange(0, i) =~= s);
    } else {
        let p = s.subrange(0, i + 1);
        assert(p.drop_last() =~= s.subrange(0, i));
        assert(all_dec_digits(s.subrange(0, i)));
        lemma_dec_val_nonneg(s.subrange(0, i));
        assert(dec_val(s.subrange(0, i)) <= dec_val(p));
        lemma_dec_val_prefix_le(s, i + 1);
    }
}

/// The index of the first colon in the text, or its length when it holds
/// none.
pub open spec fn first_colon(s: Seq<char>) -> int
    decreases s.len(),
{
    if s.len() == 0 {
        0
    } else if s[0] == ':' {
        0
    } else {
        1 + first_colon(s.subrange(1, s.len() as int))
    }
}

/// Whether the text holds a colon.
pub open spec fn contains_colon(s: Seq<char>) -> bool {
    exists|i: int| 0 <= i < s.len() && s[i] == ':'
}

/// `first_colon` names the position of the first colon: the position of a
/// colon with none before it, or the length when no position holds one.
proof fn lemma_first_colon_at(s: Seq<char>, i: int)
    requires
        0 <= i <= s.len(),
        forall|j: int| 0 <= j < i ==> s[j] != ':',
        i == s.len() || s[i] == ':',
    ensures
        first_colon(s) == i,
    decreases i,
{
    if i > 0 {
        let t = s.subrange(1, s.len() as int);
        assert(forall|j: int| 0 <= j < i - 1 ==> t[j] != ':');
        lemma_first_colon_at(t, i - 1);
    }
}

/// Finds the first colon in the token, returning its position, or the
/// token's length when there is none.
pub fn find_colon(s: &str) -> (r: usize)
    ensures
        r as int == first_colon(s@),
        r <= s@.len(),
        r < s@.len() ==> s@[r as int] == ':',
        forall|j: int| 0 <= j < r ==> s@[j] != ':',
        contains_colon(s@) == (r < s@.len()),
{
    let n = s.unicode_len();
    let mut i: usize = 0;
    while i < n
        invariant
            i <= n,
            n == s@.len(),
            forall|j: int| 0 <= j < i ==> s@[j] != ':',
        decreases n - i,
    {
        if s.get_char(i) == ':' {
            proof {
                lemma_first_colon_at(s@, i as int);
            }
            return i;
        }
        i += 1;
    }
    proof {
        lemma_first_colon_at(s@, n as int);
    }
    n
}

/// Whether the first `end` characters of `s` are exactly the pattern.
pub fn prefix_matches(s: &str, end: usize, pat: &str) -> (r: bool)
    requires
        end <= s@.len(),
    ensures
        r == (s@.subrange(0, end as int) == pat@),
{
    let m = pat.unicode_len();
    if m != end {
        proof {
            assert(s@.subrange(0, end as int).len() == end as int);
        }
        return false;
    }
    let mut i: usize = 0;
    while i < end
        invariant
            i <= end,
            end <= s@.len(),
            end as int == pat@.len(),
            forall|j: int| 0 <= j < i ==> s@[j] == pat@[j],
        decreases end - i,
    {
        if s.get_char(i) != pat.get_char(i) {
            proof {
                assert(s@.subrange(0, end as int)[i as int] == s@[i as int]);
            }
            return false;
        }
        i += 1;
    }
    proof {
        assert(s@.subrange(0, end as int) =~= pat@);
    }
    true
}

/// Parses the text as parsing into a `usize` does: an optional leading
/// `+`, then at least one decimal digit; anything else, and any value that
/// does not fit the type, is rejected.
pub fn parse_usize(s: &str) -> (r: Option<usize>)
    ensures
        r is Some <==> is_usize_literal(s@),
        r matches Some(v) ==> v as int == usize_literal_val(s@),
{
    let n = s.unicode_len();
    let start: usize = if n > 0 && s.get_char(0) == '+' {
        1
    } else {
        0
    };
    if start >= n {
        // No digits at all: the empty token, or a bare sign.
        return None;
    }
    proof {
        assert(unsigned_digits(s@) =~= s@.subrange(start as int, n as int));
    }
    let mut i: usize = start;
    let mut val: usize = 0;
    while i < n
        invariant
            start <= i <= n,
            start < n,
            n == s@.len(),
            unsigned_digits(s@) == s@.subrange(start as int, n as int),
            all_dec_digits(s@.subrange(start as int, i as int)),
            val as int == dec_val(s@.subrange(start as int, i as int)),
        decreases n - i,
    {
        let c = s.get_char(i);
        let cv = c as u32;
        if cv < 48 || cv > 57 {
            proof {
                let digs = unsigned_digits(s@);
                assert(digs[i - start] == s@[i as int]);
            }
            return None;
        }
        let d = (cv - 48) as usize;
        if val > (usize::MAX - d) / 10 {
            // The next digit would take the value past what fits; a longer
            // digit run can only grow it further.
            proof {
                let digs = unsigned_digits(s@);
                let p = s@.subrange(start as int, i + 1);
                assert(p.drop_last() =~= s@.subrange(start as int, i as int));
                assert(p.last() == s@[i as int]);
                assert(dec_val(p) == 10 * (val as int) + d as int);
                assert(dec_val(p) > usize::MAX);
                if is_usize_literal(s@) {
                    assert(digs.subrange(0, i + 1 - start) =~= p);
                    lemma_dec_val_prefix_le(digs, i + 1 - start);
                }
            }
            return None;
        }
        val = val * 10 + d;
        i += 1;
        proof {
            let p = s@.subrange(start as int, i as int);
            assert(p.drop_last() =~= s@.subrange(start as int, i - 1));
            assert(p.last() == s@[i - 1]);
        }
    }
    proof {
        assert(s@.subrange(start as int, n as int) =~= unsigned_digits(s@));
    }
    Some(val)
}

/// The character of one decimal digit.
pub open spec fn spec_digit_char(d: int) -> char {
    if d == 0 {
        '0'
    } else if d == 1 {
        '1'
    } else if d == 2 {
        '2'
    } else if d == 3 {
        '3'
    } else if d == 4 {
        '4'
    } else if d == 5 {
        '5'
    } else if d == 6 {
        '6'
    } else if d == 7 {
        '7'
    } else if d == 8 {
        '8'
    } else {
        '9'
    }
}

/// The decimal rendering of a non-negative number, most significant digit
/// first, without a leading zero except for zero itself.
pub open spec fn spec_decimal(v: int) -> Seq<char>
    recommends
        v >= 0,
    decreases v,
{
    if v < 10 {
        seq![spec_digit_char(v)]
    } else {
        spec_decimal(v / 10).push(spec_digit_char(v % 10))
    }
}

/// The one-character text of a decimal digit.
fn digit_str(d: usize) -> (r: &'static str)
    requires
        d < 10,
    ensures
        r@ =~= seq![spec_digit_char(d as int)],
{
    proof {
        reveal_strlit("0");
        reveal_strlit("1");
        reveal_strlit("2");
        reveal_strlit("3");
        reveal_strlit("4");
        reveal_strlit("5");
        reveal_strlit("6");
        reveal_strlit("7");
        reveal_strlit("8");
        reveal_strlit("9");
    }
    match d {
        0 => "0",
        1 => "1",
        2 => "2",
        3 => "3",
        4 => "4",
        5 => "5",
        6 => "6",
        7 => "7",
        8 => "8",
        _ => "9",
    }
}

/// Renders a number in decimal, for diagnostic messages.
pub fn decimal_string(v: usize) -> (r: String)
    ensures
        r@ == spec_decimal(v as int),
    decreases v,
{
    if v < 10 {
        String::from_str(digit_str(v))
    } else {
        let high = decimal_string(v / 10);
        let low = digit_str(v % 10);
        let r = high.concat(low);
        proof {
            assert(r@ =~= spec_decimal((v / 10) as int).push(spec_digit_char((v % 10) as int)));
        }
        r
    }
}

} // verus!
