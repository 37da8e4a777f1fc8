//! Character classes, string comparison and number parsing used by the
//! chopro grammar and the chord resolver.
//!
//! The grammar of this crate is defined over ASCII character classes: a
//! "word" character is an ASCII letter, digit or underscore, and
//! whitespace means the ASCII whitespace characters.  Strings are ordered
//! lexicographically by Unicode scalar value, which agrees with the byte
//! order of their UTF-8 encodings.

use vstd::prelude::*;

verus! {

/// ASCII whitespace, as the grammar understands it.
pub open spec fn is_ws_char(c: char) -> bool {
    c == ' ' || c == '\t' || c == '\r' || c == '\n' || c == '\u{b}' || c == '\u{c}'
}

pub fn ch_is_ws(c: char) -> (r: bool)
    ensures
        r == is_ws_char(c),
{
    c == ' ' || c == '\t' || c == '\r' || c == '\n' || c == '\u{b}' || c == '\u{c}'
}

/// ASCII decimal digit.
pub open spec fn is_digit_char(c: char) -> bool {
    '0' as int <= c as int <= '9' as int
}

pub fn ch_is_digit(c: char) -> (r: bool)
    ensures
        r == is_digit_char(c),
{
    '0' <= c && c <= '9'
}

/// Numeric value of an ASCII decimal digit.
pub open spec fn digit_val(c: char) -> int {
    c as int - '0' as int
}

/// ASCII letter, digit or underscore: a directive-name character.
pub open spec fn is_word_char(c: char) -> bool {
    ||| 'a' as int <= c as int <= 'z' as int
    ||| 'A' as int <= c as int <= 'Z' as int
    ||| is_digit_char(c)
    ||| c == '_'
}

pub fn ch_is_word(c: char) -> (r: bool)
    ensures
        r == is_word_char(c),
{
    ('a' <= c && c <= 'z') || ('A' <= c && c <= 'Z') || ('0' <= c && c <= '9') || c == '_'
}

/// Equality of two characters up to ASCII letter case.
pub open spec fn ascii_ci_eq(x: char, y: char) -> bool {
    ||| x == y
    ||| ('A' as int <= x as int <= 'Z' as int && y as int == x as int + 32)
    ||| ('A' as int <= y as int <= 'Z' as int && x as int == y as int + 32)
}

pub fn ch_ci_eq(x: char, y: char) -> (r: bool)
    ensures
        r == ascii_ci_eq(x, y),
{
    let xu = x as u32;
    let yu = y as u32;
    x == y || ('A' <= x && x <= 'Z' && yu == xu + 32) || ('A' <= y && y <= 'Z' && xu == yu + 32)
}

/// Equality of two strings up to ASCII letter case.
pub open spec fn eq_ignore_ascii_case(a: Seq<char>, b: Seq<char>) -> bool {
    a.len() == b.len() && (forall|i: int| 0 <= i < a.len() ==> ascii_ci_eq(a[i], #[trigger] b[i]))
}

pub fn str_eq_ci(a: &str, b: &str) -> (r: bool)
    ensures
        r == eq_ignore_ascii_case(a@, b@),
{
    let alen = a.unicode_len();
    let blen = b.unicode_len();
    if alen != blen {
        return false;
    }
    let mut i: usize = 0;
    while i < alen
        invariant
            i <= alen,
            alen == a@.len(),
            alen == b@.len(),
            forall|j: int| 0 <= j < i ==> ascii_ci_eq(a@[j], #[trigger] b@[j]),
        decreases alen - i,
    {
        if !ch_ci_eq(a.get_char(i), b.get_char(i)) {
            return false;
        }
        i += 1;
    }
    true
}

/// Exact string equality.
pub fn str_eq(a: &str, b: &str) -> (r: bool)
    ensures
        r == (a@ == b@),
{
    let alen = a.unicode_len();
    let blen = b.unicode_len();
    if alen != blen {
        return false;
    }
    let mut i: usize = 0;
    while i < alen
        invariant
            i <= alen,
            alen == a@.len(),
            alen == b@.len(),
            forall|j: int| 0 <= j < i ==> a@[j] == #[trigger] b@[j],
        decreases alen - i,
    {
        if a.get_char(i) != b.get_char(i) {
            return false;
        }
        i += 1;
    }
    proof {
        assert(a@ =~= b@);
    }
    true
}

/// Strict lexicographic order on character sequences, by scalar value.
pub open spec fn lex_lt(a: Seq<char>, b: Seq<char>) -> bool
    decreases a.len(),
{
    if b.len() == 0 {
        false
    } else if a.len() == 0 {
        true
    } else if (a[0] as int) < (b[0] as int) {
        true
    } else if a[0] != b[0] {
        false
    } else {
        lex_lt(a.drop_first(), b.drop_first())
    }
}

/// `lex_lt` is a strict total order: it is asymmetric and two sequences
/// that neither order precedes are equal.
pub proof fn lemma_lex_lt_total(a: Seq<char>, b: Seq<char>)
    ensures
        lex_lt(a, b) ==> !lex_lt(b, a) && a != b,
        !lex_lt(a, b) && !lex_lt(b, a) ==> a == b,
    decreases a.len(),
{
    if a.len() == 0 || b.len() == 0 {
        if a.len() == 0 && b.len() == 0 {
            assert(a =~= b);
        }
    } else {
        if a[0] == b[0] {
            lemma_lex_lt_total(a.drop_first(), b.drop_first());
            assert(forall|i: int| 1 <= i < a.len() ==> #[trigger] a[i] == a.drop_first()[i - 1]);
            assert(forall|i: int| 1 <= i < b.len() ==> #[trigger] b[i] == b.drop_first()[i - 1]);
            if !lex_lt(a, b) && !lex_lt(b, a) {
                assert(a.drop_first() == b.drop_first());
                assert(a =~= b);
            }
            if lex_lt(a, b) && a.drop_first() == b.drop_first() {
                assert(false);
            }
        } else {
            assert(a[0] as int != b[0] as int);
        }
    }
}

/// `lex_lt` is transitive.
pub proof fn lemma_lex_lt_trans(a: Seq<char>, b: Seq<char>, c: Seq<char>)
    requires
        lex_lt(a, b),
        lex_lt(b, c),
    ensures
        lex_lt(a, c),
    decreases a.len(),
{
    if a.len() == 0 {
    } else {
        if a[0] == b[0] && b[0] == c[0] {
            lemma_lex_lt_trans(a.drop_first(), b.drop_first(), c.drop_first());
        }
    }
}

/// Compare two strings in the order of `lex_lt`.
pub fn str_lt(a: &str, b: &str) -> (r: bool)
    ensures
        r == lex_lt(a@, b@),
    decreases a@.len(),
{
    if b.is_empty() {
        return false;
    }
    if a.is_empty() {
        return true;
    }
    let ca = a.get_char(0);
    let cb = b.get_char(0);
    if ca < cb {
        true
    } else if ca != cb {
        false
    } else {
        let alen = a.unicode_len();
        let blen = b.unicode_len();
        let ra = a.substring_char(1, alen);
        let rb = b.substring_char(1, blen);
        proof {
            assert(ra@ =~= a@.drop_first());
            assert(rb@ =~= b@.drop_first());
        }
        str_lt(ra, rb)
    }
}

/// Whether the string contains the character.
pub fn str_contains(s: &str, c: char) -> (r: bool)
    ensures
        r == s@.contains(c),
{
    let len = s.unicode_len();
    let mut i: usize = 0;
    while i < len
        invariant
            i <= len,
            len == s@.len(),
            forall|j: int| 0 <= j < i ==> s@[j] != c,
        decreases len - i,
    {
        if s.get_char(i) == c {
            return true;
        }
        i += 1;
    }
    false
}

/// Value of a sequence of ASCII digits, most significant first.
pub open spec fn digits_val(s: Seq<char>) -> int
    decreases s.len(),
{
    if s.len() == 0 {
        0
    } else {
        digits_val(s.drop_last()) * 10 + digit_val(s.last())
    }
}

/// Every character of the sequence is an ASCII digit.
pub open spec fn all_digits(s: Seq<char>) -> bool {
    forall|i: int| 0 <= i < s.len() ==> is_digit_char(#[trigger] s[i])
}

/// What `str::parse::<u8>` accepts: an optional leading `+` followed by
/// one or more ASCII digits whose value fits in eight bits.
pub open spec fn spec_parse_u8(s: Seq<char>) -> Option<u8> {
    let digits = if s.len() > 0 && s[0] == '+' {
        s.drop_first()
    } else {
        s
    };
    if digits.len() > 0 && all_digits(digits) && digits_val(digits) <= 255 {
        Some(digits_val(digits) as u8)
    } else {
        None
    }
}

/// The value of a digit sequence is never negative.
pub proof fn lemma_digits_val_nonneg(s: Seq<char>)
    requires
        all_digits(s),
    ensures
        digits_val(s) >= 0,
    decreases s.len(),
{
    if s.len() > 0 {
        assert(all_digits(s.drop_last())) by {
            assert(forall|j: int| 0 <= j < s.len() - 1 ==> s.drop_last()[j] == s[j]);
        }
        lemma_digits_val_nonneg(s.drop_last());
    }
}

/// Parse an unsigned decimal number of at most 255, as `str::parse::<u8>`
/// does.
pub fn parse_u8(s: &str) -> (r: Option<u8>)
    ensures
        r == spec_parse_u8(s@),
{
    let len = s.unicode_len();
    let ghost digits: Seq<char> = if s@.len() > 0 && s@[0] == '+' {
        s@.drop_first()
    } else {
        s@
    };
    let start: usize = if len > 0 && s.get_char(0) == '+' {
        1
    } else {
        0
    };
    proof {
        if s@.len() > 0 && s@[0] == '+' {
            assert(s@.drop_first() =~= s@.subrange(1, len as int));
        }
        assert(digits =~= s@.subrange(start as int, len as int));
    }
    if start >= len {
        return None;
    }
    let mut i: usize = start;
    let mut acc: u32 = 0;
    let mut big = false;
    while i < len
        invariant
            start <= i <= len,
            len == s@.len(),
            start == 1 ==> s@.len() > 0 && s@[0] == '+',
            start == 0 ==> !(s@.len() > 0 && s@[0] == '+'),
            digits == if s@.len() > 0 && s@[0] == '+' {
                s@.drop_first()
            } else {
                s@
            },
            digits =~= s@.subrange(start as int, len as int),
            forall|j: int| start <= j < i ==> is_digit_char(#[trigger] s@[j]),
            !big ==> acc <= 255 && acc == digits_val(s@.subrange(start as int, i as int)),
            big ==> digits_val(s@.subrange(start as int, i as int)) > 255,
        decreases len - i,
    {
        let c = s.get_char(i);
        if !ch_is_digit(c) {
            proof {
                assert(digits[i - start] == s@[i as int]);
                assert(!all_digits(digits));
            }
            return None;
        }
        let d = c as u32 - '0' as u32;
        proof {
            let pre = s@.subrange(start as int, i as int);
            let post = s@.subrange(start as int, i + 1);
            assert(post.drop_last() =~= pre);
            assert(post.last() == s@[i as int]);
        }
        if big {
            proof {
                let pre = s@.subrange(start as int, i as int);
                let post = s@.subrange(start as int, i + 1);
                assert(digits_val(post) == digits_val(pre) * 10 + digit_val(s@[i as int]));
                assert(digits_val(pre) * 10 > 255 * 10) by (nonlinear_arith)
                    requires
                        digits_val(pre) > 255,
                ;
            }
        } else {
            let v = acc * 10 + d;
            if v > 255 {
                big = true;
            } else {
                acc = v;
            }
        }
        i += 1;
    }
    proof {
        assert(s@.subrange(start as int, len as int) =~= digits);
        assert(all_digits(digits));
    }
    if big {
        None
    } else {
        Some(acc as u8)
    }
}

} // verus!
