//! The chopro parser: from raw text lines to typed song elements.
//!
//! The line grammar is the classic chopro surface:
//! - a line whose first non-blank character is `#` is a source comment and
//!   is dropped before anything else looks at it;
//! - a line holding `{name}` or `{name: argument}` is a directive: the
//!   match starts at the first `{` that is followed by a word character
//!   and eventually by a `}`, the name is the run of word characters, and
//!   the argument is everything up to the line's last `}`, after one
//!   optional `:` and optional blanks;
//! - any other line is a lyric line, split into plain-text and chord
//!   segments by `[...]` brackets after tabs expand to four spaces.
//!
//! Word characters are ASCII letters, digits and `_`; blanks are ASCII
//! whitespace (see [`crate::strutil`]).

use vstd::prelude::*;

use crate::strutil::{
    all_digits, ascii_ci_eq, ch_is_digit, ch_is_word, ch_is_ws, digit_val, digits_val,
    eq_ignore_ascii_case, is_digit_char, is_word_char, is_ws_char, spec_parse_u8, str_eq_ci,
};

verus! {

/// Length of the run of characters satisfying `p` that starts at `i`.
pub open spec fn char_run(l: Seq<char>, i: int, p: spec_fn(char) -> bool) -> nat
    decreases l.len() - i,
{
    if 0 <= i < l.len() && p(l[i]) {
        (1 + char_run(l, i + 1, p)) as nat
    } else {
        0
    }
}

/// The run ends at the first index whose character fails `p`.
pub proof fn lemma_char_run(l: Seq<char>, a: int, b: int, p: spec_fn(char) -> bool)
    requires
        0 <= a <= b <= l.len(),
        forall|j: int| a <= j < b ==> p(#[trigger] l[j]),
        b == l.len() || !p(l[b]),
    ensures
        char_run(l, a, p) == b - a,
    decreases b - a,
{
    if a < b {
        lemma_char_run(l, a + 1, b, p);
    }
}

/// Word characters, as a run predicate.
pub open spec fn word_p() -> spec_fn(char) -> bool {
    |c: char| is_word_char(c)
}

/// ASCII whitespace, as a run predicate.
pub open spec fn ws_p() -> spec_fn(char) -> bool {
    |c: char| is_ws_char(c)
}

/// Characters other than `[`, as a run predicate.
pub open spec fn plain_p() -> spec_fn(char) -> bool {
    |c: char| c != '['
}

/// Characters other than `]`, as a run predicate.
pub open spec fn chord_p() -> spec_fn(char) -> bool {
    |c: char| c != ']'
}

/// There is a `c` at or after index `from`.
pub open spec fn has_char_from(l: Seq<char>, c: char, from: int) -> bool {
    exists|j: int| from <= j < l.len() && l[j] == c
}

/// A source-comment line: blanks, then `#`.
pub open spec fn comment_from(l: Seq<char>, i: int) -> bool
    decreases l.len() - i,
{
    if i < 0 || i >= l.len() {
        false
    } else if is_ws_char(l[i]) {
        comment_from(l, i + 1)
    } else {
        l[i] == '#'
    }
}

/// Whether the line is discarded as a source comment.
pub open spec fn spec_comment_line(l: Seq<char>) -> bool {
    comment_from(l, 0)
}

pub fn is_comment_line(line: &str) -> (r: bool)
    ensures
        r == spec_comment_line(line@),
{
    let len = line.unicode_len();
    let mut i: usize = 0;
    while i < len
        invariant
            i <= len,
            len == line@.len(),
            spec_comment_line(line@) == comment_from(line@, i as int),
        decreases len - i,
    {
        let c = line.get_char(i);
        if !ch_is_ws(c) {
            return c == '#';
        }
        i += 1;
    }
    false
}

/// Index of the line's last `}`, or -1 when it has none.
pub open spec fn last_rbrace(l: Seq<char>) -> int
    decreases l.len(),
{
    if l.len() == 0 {
        -1
    } else if l.last() == '}' {
        l.len() - 1
    } else {
        last_rbrace(l.drop_last())
    }
}

/// What `last_rbrace` finds: the last `}` of the line, if any.
pub proof fn lemma_last_rbrace(l: Seq<char>)
    ensures
        -1 <= last_rbrace(l) < l.len(),
        last_rbrace(l) == -1 ==> forall|j: int| 0 <= j < l.len() ==> l[j] != '}',
        last_rbrace(l) >= 0 ==> 0 <= last_rbrace(l) < l.len() && l[last_rbrace(l)] == '}',
        forall|j: int| last_rbrace(l) < j < l.len() ==> l[j] != '}',
    decreases l.len(),
{
    if l.len() > 0 && l.last() != '}' {
        lemma_last_rbrace(l.drop_last());
        assert forall|j: int| last_rbrace(l) < j < l.len() implies l[j] != '}' by {
            if j < l.len() - 1 {
                assert(l[j] == l.drop_last()[j]);
            } else {
                assert(l[j] == l.last());
            }
        }
        if last_rbrace(l) == -1 {
            assert forall|j: int| 0 <= j < l.len() implies l[j] != '}' by {
                if j < l.len() - 1 {
                    assert(l[j] == l.drop_last()[j]);
                } else {
                    assert(l[j] == l.last());
                }
            }
        }
    }
}

fn find_last_rbrace(line: &str) -> (r: Option<usize>)
    ensures
        match r {
            Some(k) => last_rbrace(line@) == k as int,
            None => last_rbrace(line@) == -1,
        },
{
    let len = line.unicode_len();
    proof {
        assert(line@.subrange(0, len as int) =~= line@);
    }
    let mut i: usize = len;
    while i > 0
        invariant
            i <= len,
            len == line@.len(),
            last_rbrace(line@) == last_rbrace(line@.subrange(0, i as int)),
        decreases i,
    {
        proof {
            assert(line@.subrange(0, i as int).last() == line@[i - 1]);
            assert(line@.subrange(0, i as int).drop_last() =~= line@.subrange(0, i - 1));
        }
        if line.get_char(i - 1) == '}' {
            return Some(i - 1);
        }
        i -= 1;
    }
    proof {
        assert(line@.subrange(0, 0) =~= Seq::<char>::empty());
    }
    None
}

/// Index of the `{` opening the line's directive, searching from `i`: the
/// first `{` followed by a word character and, later, by a `}`.
pub open spec fn directive_start(l: Seq<char>, i: int) -> Option<int>
    decreases l.len() - i,
{
    if i >= l.len() || i < 0 {
        None
    } else if l[i] == '{' && i + 1 < l.len() && is_word_char(l[i + 1]) && has_char_from(
        l,
        '}',
        i + 2,
    ) {
        Some(i)
    } else {
        directive_start(l, i + 1)
    }
}

/// The directive of a line: its name and its argument, the latter running
/// to the line's last `}` with one optional `:` and leading blanks
/// removed.
pub open spec fn spec_directive(l: Seq<char>) -> Option<(Seq<char>, Seq<char>)> {
    match directive_start(l, 0) {
        None => None,
        Some(i) => {
            let cs = i + 1;
            let ce = cs + char_run(l, cs, word_p());
            let k = last_rbrace(l);
            let a0 = if ce < k && l[ce] == ':' {
                ce + 1
            } else {
                ce
            };
            let a1 = a0 + char_run(l, a0, ws_p());
            Some((l.subrange(cs, ce), l.subrange(a1, k)))
        },
    }
}

/// The text of the line's directive, from its `{` to the line's last `}`.
pub open spec fn spec_directive_text(l: Seq<char>) -> Seq<char> {
    match directive_start(l, 0) {
        None => Seq::empty(),
        Some(i) => l.subrange(i, last_rbrace(l) + 1),
    }
}

/// Split a directive line into name, argument, and whole directive text.
fn find_directive(line: &str) -> (r: Option<(String, String, String)>)
    ensures
        match r {
            Some(t) => spec_directive(line@) == Some((t.0@, t.1@)) && t.2@ == spec_directive_text(
                line@,
            ),
            None => spec_directive(line@) is None,
        },
{
    let len = line.unicode_len();
    let k = match find_last_rbrace(line) {
        Some(k) => k,
        None => {
            proof {
                lemma_last_rbrace(line@);
                lemma_no_rbrace_no_directive(line@, 0);
            }
            return None;
        },
    };
    proof {
        lemma_last_rbrace(line@);
    }
    let mut i: usize = 0;
    while i < len
        invariant
            i <= len,
            len == line@.len(),
            k < len,
            line@[k as int] == '}',
            last_rbrace(line@) == k as int,
            forall|j: int| k < j < len ==> line@[j] != '}',
            directive_start(line@, 0) == directive_start(line@, i as int),
        decreases len - i,
    {
        let c = line.get_char(i);
        let cond = c == '{' && i + 1 < len && ch_is_word(line.get_char(i + 1)) && i + 2 <= k;
        proof {
            if i + 2 <= k {
                assert(has_char_from(line@, '}', i + 2)) by {
                    assert(line@[k as int] == '}');
                }
            } else {
                assert(!has_char_from(line@, '}', i + 2)) by {
                    if has_char_from(line@, '}', i + 2) {
                        let j = choose|j: int|
                            i + 2 <= j < line@.len() && line@[j] == '}';
                        assert(j <= k);
                    }
                }
            }
        }
        if cond {
            // The directive starts here: take the name, then the argument.
            let mut ce: usize = i + 1;
            while ce < len && ch_is_word(line.get_char(ce))
                invariant
                    i + 1 <= ce <= len,
                    len == line@.len(),
                    forall|j: int| i + 1 <= j < ce ==> is_word_char(#[trigger] line@[j]),
                decreases len - ce,
            {
                ce += 1;
            }
            proof {
                lemma_char_run(line@, i + 1, ce as int, word_p());
            }
            let cmd = line.substring_char(i + 1, ce);
            // The name stops at a non-word character, so it cannot pass
            // the last `}`.
            proof {
                assert(ce <= k) by {
                    if ce > k {
                        assert(is_word_char(line@[k as int]));
                    }
                }
            }
            let a0: usize = if ce < k && line.get_char(ce) == ':' {
                ce + 1
            } else {
                ce
            };
            let mut a1: usize = a0;
            while a1 < len && ch_is_ws(line.get_char(a1))
                invariant
                    a0 <= a1 <= len,
                    len == line@.len(),
                    forall|j: int| a0 <= j < a1 ==> is_ws_char(#[trigger] line@[j]),
                decreases len - a1,
            {
                a1 += 1;
            }
            proof {
                lemma_char_run(line@, a0 as int, a1 as int, ws_p());
                // blanks stop at the `}`, so the argument start is inside
                assert(a1 <= k) by {
                    if a1 > k {
                        assert(is_ws_char(line@[k as int]));
                    }
                }
            }
            let arg = line.substring_char(a1, k);
            let text = line.substring_char(i, k + 1);
            return Some((String::from_str(cmd), String::from_str(arg), String::from_str(text)));
        }
        i += 1;
    }
    None
}

/// A line with no `}` has no directive.
proof fn lemma_no_rbrace_no_directive(l: Seq<char>, i: int)
    requires
        forall|j: int| 0 <= j < l.len() ==> l[j] != '}',
    ensures
        directive_start(l, i) is None,
    decreases l.len() - i,
{
    if 0 <= i < l.len() {
        assert(!has_char_from(l, '}', i + 2)) by {
            if has_char_from(l, '}', i + 2) {
                let j = choose|j: int| i + 2 <= j < l.len() && l[j] == '}';
                assert(l[j] != '}');
            }
        }
        lemma_no_rbrace_no_directive(l, i + 1);
    }
}

/// Tabs expand to four spaces before a lyric line is split; everything
/// else stays.
pub open spec fn expand_tabs(l: Seq<char>) -> Seq<char>
    decreases l.len(),
{
    if l.len() == 0 {
        Seq::empty()
    } else if l.last() == '\t' {
        expand_tabs(l.drop_last()) + seq![' ', ' ', ' ', ' ']
    } else {
        expand_tabs(l.drop_last()) + seq![l.last()]
    }
}

fn expand_tabs_exec(line: &str) -> (r: String)
    ensures
        r@ == expand_tabs(line@),
{
    let len = line.unicode_len();
    let mut r = String::new();
    let mut i: usize = 0;
    while i < len
        invariant
            i <= len,
            len == line@.len(),
            r@ == expand_tabs(line@.subrange(0, i as int)),
        decreases len - i,
    {
        proof {
            let t = line@.subrange(0, i + 1);
            assert(t.drop_last() =~= line@.subrange(0, i as int));
            assert(t.last() == line@[i as int]);
        }
        if line.get_char(i) == '\t' {
            r.append("    ");
            proof {
                reveal_strlit("    ");
                assert("    "@ =~= seq![' ', ' ', ' ', ' ']);
            }
        } else {
            let piece = line.substring_char(i, i + 1);
            proof {
                assert(piece@ =~= seq![line@[i as int]]);
            }
            r.append(piece);
        }
        i += 1;
    }
    proof {
        assert(line@.subrange(0, len as int) =~= line@);
    }
    r
}

/// The line ends a verbatim tab block: it holds `{eot` or `{end_of_tab`
/// anywhere.
pub open spec fn marker_at(l: Seq<char>, i: int, m: Seq<char>) -> bool {
    0 <= i && i + m.len() <= l.len() && l.subrange(i, i + m.len()) == m
}

pub open spec fn has_tab_end(l: Seq<char>) -> bool {
    exists|i: int|
        #![trigger marker_at(l, i, "{eot"@)]
        #![trigger marker_at(l, i, "{end_of_tab"@)]
        marker_at(l, i, "{eot"@) || marker_at(l, i, "{end_of_tab"@)
}

/// Whether `m` occurs in `l` starting at `i`.
fn match_marker(line: &str, i: usize, m: &str) -> (r: bool)
    requires
        i <= line@.len(),
    ensures
        r == marker_at(line@, i as int, m@),
{
    let len = line.unicode_len();
    let mlen = m.unicode_len();
    if mlen > len - i {
        return false;
    }
    let mut j: usize = 0;
    while j < mlen
        invariant
            j <= mlen,
            mlen == m@.len(),
            len == line@.len(),
            i + mlen <= len,
            forall|t: int| 0 <= t < j ==> line@[i + t] == m@[t],
        decreases mlen - j,
    {
        if line.get_char(i + j) != m.get_char(j) {
            proof {
                assert(line@.subrange(i as int, i + m@.len())[j as int] == line@[i + j]);
            }
            return false;
        }
        j += 1;
    }
    proof {
        assert(line@.subrange(i as int, i + m@.len()) =~= m@);
    }
    true
}

/// Whether the line ends a tab block.
pub fn is_tab_end(line: &str) -> (r: bool)
    ensures
        r == has_tab_end(line@),
{
    let len = line.unicode_len();
    let mut i: usize = 0;
    while i < len
        invariant
            i <= len,
            len == line@.len(),
            forall|t: int|
                0 <= t < i ==> !(marker_at(line@, t, "{eot"@) || marker_at(
                    line@,
                    t,
                    "{end_of_tab"@,
                )),
        decreases len - i,
    {
        if match_marker(line, i, "{eot") || match_marker(line, i, "{end_of_tab") {
            return true;
        }
        i += 1;
    }
    proof {
        if has_tab_end(line@) {
            let t = choose|t: int|
                #![trigger marker_at(line@, t, "{eot"@)]
                #![trigger marker_at(line@, t, "{end_of_tab"@)]
                marker_at(line@, t, "{eot"@) || marker_at(line@, t, "{end_of_tab"@);
            assert(marker_at(line@, t, "{eot"@) || marker_at(line@, t, "{end_of_tab"@));
            assert("{eot"@.len() >= 1 && "{end_of_tab"@.len() >= 1) by {
                reveal_strlit("{eot");
                reveal_strlit("{end_of_tab");
            }
            assert(0 <= t < len);
            assert(false);
        }
        assert(!has_tab_end(line@));
    }
    false
}

/// The views of a list of owned strings.
pub open spec fn seg_views(s: Seq<String>) -> Seq<Seq<char>> {
    Seq::new(s.len(), |i: int| s[i]@)
}

/// One splitting step of a lyric line, mirroring repeated leftmost
/// matching of "plain run, then optionally `[chord]`" with empty matches
/// suppressed where the previous match ended (`last`; -1 for none): at
/// `i`, the plain run extends to the next `[`; a closed bracket after it
/// contributes a chord segment; an unclosed `[` is skipped.
pub open spec fn segs_from(l: Seq<char>, i: int, last: int) -> Seq<Seq<char>>
    decreases l.len() + 1 - i,
{
    if i > l.len() || i < 0 {
        Seq::empty()
    } else {
        let p0 = i + char_run(l, i, plain_p());
        let p = if p0 <= l.len() {
            p0
        } else {
            l.len() as int
        };
        if p < l.len() && has_char_from(l, ']', p + 1) {
            let q0 = p + 1 + char_run(l, p + 1, chord_p());
            let q = if q0 < l.len() {
                q0
            } else {
                l.len() - 1
            };
            seq![l.subrange(i, p), l.subrange(p + 1, q)] + segs_from(l, q + 1, q + 1)
        } else if p > i {
            seq![l.subrange(i, p)] + segs_from(l, p, p)
        } else {
            if last == i {
                segs_from(l, i + 1, last)
            } else {
                seq![Seq::<char>::empty()] + segs_from(l, i + 1, i)
            }
        }
    }
}

/// The segments of a lyric line, after tab expansion: strictly
/// alternating plain text and chord names, plain text first.
pub open spec fn line_segments(l: Seq<char>) -> Seq<Seq<char>> {
    segs_from(expand_tabs(l), 0, -1)
}

/// Split a lyric line into its plain-text and chord segments.
#[verifier::loop_isolation(false)]
pub fn split_line(line: &str) -> (r: Vec<String>)
    ensures
        seg_views(r@) == line_segments(line@),
{
    let exp_s = expand_tabs_exec(line);
    let e = exp_s.as_str();
    let len = e.unicode_len();
    let mut segs: Vec<String> = Vec::new();
    let mut i: usize = 0;
    let mut last_set: bool = false;
    let mut last: usize = 0;
    while i < len
        invariant
            i <= len,
            len == e@.len(),
            e@ == expand_tabs(line@),
            last_set ==> last <= len,
            seg_views(segs@) + segs_from(
                e@,
                i as int,
                if last_set {
                    last as int
                } else {
                    -1
                },
            ) == line_segments(line@),
        decreases len - i,
    {
        let ghost lastg: int = if last_set {
            last as int
        } else {
            -1
        };
        let ghost segs0 = segs@;
        let mut p: usize = i;
        while p < len && e.get_char(p) != '['
            invariant
                i <= p <= len,
                len == e@.len(),
                forall|j: int| i <= j < p ==> e@[j] != '[',
            decreases len - p,
        {
            p += 1;
        }
        proof {
            lemma_char_run(e@, i as int, p as int, plain_p());
        }
        let mut found: Option<usize> = None;
        if p < len {
            let mut q: usize = p + 1;
            while q < len && e.get_char(q) != ']'
                invariant
                    p + 1 <= q <= len,
                    len == e@.len(),
                    forall|j: int| p + 1 <= j < q ==> e@[j] != ']',
                decreases len - q,
            {
                q += 1;
            }
            proof {
                lemma_char_run(e@, p + 1, q as int, chord_p());
            }
            if q < len {
                found = Some(q);
                proof {
                    assert(has_char_from(e@, ']', p + 1)) by {
                        assert(e@[q as int] == ']');
                    }
                }
            } else {
                proof {
                    assert(!has_char_from(e@, ']', p + 1)) by {
                        if has_char_from(e@, ']', p + 1) {
                            let j = choose|j: int| p + 1 <= j < e@.len() && e@[j] == ']';
                            assert(e@[j] != ']');
                        }
                    }
                }
            }
        }
        match found {
            Some(q) => {
                let s1 = e.substring_char(i, p);
                let s2 = e.substring_char(p + 1, q);
                segs.push(String::from_str(s1));
                segs.push(String::from_str(s2));
                proof {
                    let rest = segs_from(e@, q + 1, q + 1);
                    assert(seg_views(segs@) =~= seg_views(segs0) + seq![s1@, s2@]);
                    assert(segs_from(e@, i as int, lastg) == seq![s1@, s2@] + rest);
                    assert(seg_views(segs0) + (seq![s1@, s2@] + rest) =~= (seg_views(segs0)
                        + seq![s1@, s2@]) + rest);
                }
                i = q + 1;
                last_set = true;
                last = q + 1;
            },
            None => {
                if p > i {
                    let s1 = e.substring_char(i, p);
                    segs.push(String::from_str(s1));
                    proof {
                        let rest = segs_from(e@, p as int, p as int);
                        assert(seg_views(segs@) =~= seg_views(segs0) + seq![s1@]);
                        assert(segs_from(e@, i as int, lastg) == seq![s1@] + rest);
                        assert(seg_views(segs0) + (seq![s1@] + rest) =~= (seg_views(segs0)
                            + seq![s1@]) + rest);
                    }
                    i = p;
                    last_set = true;
                    last = p;
                } else if last_set && last == i {
                    i += 1;
                } else {
                    segs.push(String::new());
                    proof {
                        let rest = segs_from(e@, i + 1, i as int);
                        assert(seg_views(segs@) =~= seg_views(segs0) + seq![Seq::<char>::empty()]);
                        assert(segs_from(e@, i as int, lastg) == seq![Seq::<char>::empty()]
                            + rest);
                        assert(seg_views(segs0) + (seq![Seq::<char>::empty()] + rest) =~= (
                        seg_views(segs0) + seq![Seq::<char>::empty()]) + rest);
                    }
                    last_set = true;
                    last = i;
                    i += 1;
                }
            },
        }
    }
    // The splitter also matches once at the very end of the line: that
    // final empty match yields one empty segment unless the previous
    // match ended there.
    if !(last_set && last == len) {
        let ghost segs0 = segs@;
        segs.push(String::new());
        proof {
            let lastg: int = if last_set {
                last as int
            } else {
                -1
            };
            assert(segs_from(e@, len + 1, len as int) =~= Seq::<Seq<char>>::empty());
            assert(segs_from(e@, len as int, lastg) == seq![Seq::<char>::empty()] + segs_from(
                e@,
                len + 1,
                len as int,
            ));
            assert(seg_views(segs@) =~= seg_views(segs0) + seq![Seq::<char>::empty()]);
            assert(seg_views(segs0) + (seq![Seq::<char>::empty()] + segs_from(
                e@,
                len + 1,
                len as int,
            )) =~= seg_views(segs@));
        }
    } else {
        proof {
            assert(segs_from(e@, len + 1, len as int) =~= Seq::<Seq<char>>::empty());
            assert(segs_from(e@, len as int, len as int) =~= Seq::<Seq<char>>::empty());
            assert(seg_views(segs@) + Seq::<Seq<char>>::empty() =~= seg_views(segs@));
        }
    }
    segs
}

/// What a run looks like: it stays inside the line, all its characters
/// satisfy the predicate, and it stops at the line's end or at the first
/// character that does not.
pub proof fn lemma_char_run_content(l: Seq<char>, a: int, p: spec_fn(char) -> bool)
    requires
        0 <= a <= l.len(),
    ensures
        a + char_run(l, a, p) <= l.len(),
        forall|j: int| a <= j < a + char_run(l, a, p) ==> p(#[trigger] l[j]),
        a + char_run(l, a, p) == l.len() || !p(l[a + char_run(l, a, p)]),
    decreases l.len() - a,
{
    if a < l.len() && p(l[a]) {
        lemma_char_run_content(l, a + 1, p);
    }
}

/// Every `[` of the line is closed by some later `]`.
pub open spec fn brackets_closed(e: Seq<char>) -> bool {
    forall|i: int| 0 <= i < e.len() && (#[trigger] e[i]) == '[' ==> has_char_from(e, ']', i + 1)
}

/// Shape of the split at any splitting state, for a line whose brackets
/// all close.
proof fn lemma_segs_shape(e: Seq<char>, i: int, last: int)
    requires
        brackets_closed(e),
        0 <= i,
    ensures
        forall|k: int|
            0 <= k < segs_from(e, i, last).len() ==> ((k % 2 == 0
                ==> !(#[trigger] segs_from(e, i, last)[k]).contains('[')) && (k % 2 == 1
                ==> !segs_from(e, i, last)[k].contains(']'))),
    decreases e.len() + 1 - i,
{
    if i > e.len() {
    } else {
        lemma_char_run_content(e, i, plain_p());
        let p = i + char_run(e, i, plain_p());
        let segs = segs_from(e, i, last);
        if p < e.len() && has_char_from(e, ']', p + 1) {
            lemma_char_run_content(e, p + 1, chord_p());
            let q0 = p + 1 + char_run(e, p + 1, chord_p());
            assert(q0 < e.len()) by {
                let j = choose|j: int| p + 1 <= j < e.len() && e[j] == ']';
                if j < q0 {
                    assert(e[j] != ']');
                }
            }
            let q = q0;
            lemma_segs_shape(e, q + 1, q + 1);
            let plain = e.subrange(i, p);
            let chord = e.subrange(p + 1, q);
            assert(!plain.contains('[')) by {
                if plain.contains('[') {
                    let j = choose|j: int| 0 <= j < plain.len() && plain[j] == '[';
                    assert(plain[j] == e[i + j]);
                }
            }
            assert(!chord.contains(']')) by {
                if chord.contains(']') {
                    let j = choose|j: int| 0 <= j < chord.len() && chord[j] == ']';
                    assert(chord[j] == e[p + 1 + j]);
                }
            }
            let rest = segs_from(e, q + 1, q + 1);
            assert(segs == seq![plain, chord] + rest);
            assert forall|k: int| 0 <= k < segs.len() implies ((k % 2 == 0 ==> !(
            #[trigger] segs[k]).contains('[')) && (k % 2 == 1 ==> !segs[k].contains(']'))) by {
                if k >= 2 {
                    assert(segs[k] == rest[k - 2]);
                    assert((k - 2) % 2 == k % 2);
                }
            }
        } else if p > i {
            // The plain run can only stop at the line's end here: an
            // unclosed `[` is ruled out by the hypothesis.
            assert(p == e.len()) by {
                if p < e.len() {
                    assert(e[p] == '[');
                }
            }
            let plain = e.subrange(i, p);
            assert(!plain.contains('[')) by {
                if plain.contains('[') {
                    let j = choose|j: int| 0 <= j < plain.len() && plain[j] == '[';
                    assert(plain[j] == e[i + j]);
                }
            }
            assert(segs_from(e, p + 1, p as int) =~= Seq::<Seq<char>>::empty());
            assert(segs_from(e, p as int, p as int) =~= Seq::<Seq<char>>::empty());
            assert(segs == seq![plain]);
        } else {
            // An empty match: only possible at the very end of the line.
            assert(i == e.len()) by {
                if i < e.len() {
                    assert(e[i] == '[');
                    assert(has_char_from(e, ']', i + 1));
                }
            }
            if last == i {
                assert(segs_from(e, i + 1, last) =~= Seq::<Seq<char>>::empty());
                assert(segs =~= Seq::<Seq<char>>::empty());
            } else {
                assert(segs_from(e, i + 1, i) =~= Seq::<Seq<char>>::empty());
                assert(segs == seq![Seq::<char>::empty()]);
                assert(!Seq::<char>::empty().contains('['));
            }
        }
    }
}

/// The segments of a lyric line whose brackets all close strictly
/// alternate: even-indexed segments are plain text and hold no `[`,
/// odd-indexed segments are chord names and hold no `]`.
pub proof fn lemma_segments_alternate(l: Seq<char>)
    requires
        brackets_closed(expand_tabs(l)),
    ensures
        forall|k: int|
            0 <= k < line_segments(l).len() ==> ((k % 2 == 0 ==> !(
            #[trigger] line_segments(l)[k]).contains('[')) && (k % 2 == 1 ==> !line_segments(
                l,
            )[k].contains(']'))),
{
    lemma_segs_shape(expand_tabs(l), 0, -1);
}

/// Characters that are not ASCII whitespace, as a run predicate.
pub open spec fn tok_p() -> spec_fn(char) -> bool {
    |c: char| !is_ws_char(c)
}

/// The whitespace-separated tokens of a string, from index `i` on.
pub open spec fn ws_split(s: Seq<char>, i: int) -> Seq<Seq<char>>
    decreases s.len() - i,
{
    if i < 0 || i >= s.len() {
        Seq::empty()
    } else if is_ws_char(s[i]) {
        ws_split(s, i + 1)
    } else {
        let t0 = i + char_run(s, i, tok_p());
        let t = if t0 <= s.len() {
            t0
        } else {
            s.len() as int
        };
        seq![s.subrange(i, t)] + ws_split(s, t)
    }
}

/// Split a string at ASCII whitespace.
fn split_ws(s: &str) -> (r: Vec<String>)
    ensures
        seg_views(r@) == ws_split(s@, 0),
{
    let len = s.unicode_len();
    let mut toks: Vec<String> = Vec::new();
    let mut i: usize = 0;
    while i < len
        invariant
            i <= len,
            len == s@.len(),
            seg_views(toks@) + ws_split(s@, i as int) == ws_split(s@, 0),
        decreases len - i,
    {
        let ghost toks0 = toks@;
        if ch_is_ws(s.get_char(i)) {
            i += 1;
        } else {
            let mut t: usize = i + 1;
            while t < len && !ch_is_ws(s.get_char(t))
                invariant
                    i + 1 <= t <= len,
                    len == s@.len(),
                    !is_ws_char(s@[i as int]),
                    forall|j: int| i <= j < t ==> !is_ws_char(#[trigger] s@[j]),
                decreases len - t,
            {
                t += 1;
            }
            proof {
                lemma_char_run(s@, i as int, t as int, tok_p());
            }
            let tok = s.substring_char(i, t);
            toks.push(String::from_str(tok));
            proof {
                let rest = ws_split(s@, t as int);
                assert(seg_views(toks@) =~= seg_views(toks0) + seq![tok@]);
                assert(ws_split(s@, i as int) == seq![tok@] + rest);
                assert(seg_views(toks0) + (seq![tok@] + rest) =~= (seg_views(toks0) + seq![tok@])
                    + rest);
            }
            i = t;
        }
    }
    toks
}

/// A single fret token of a chord definition: a digit, `x`, `X` or `-`.
pub open spec fn fret_token_ok(t: Seq<char>) -> bool {
    t.len() == 1 && (is_digit_char(t[0]) || t[0] == 'x' || t[0] == 'X' || t[0] == '-')
}

/// Fret number of a fret token; the muted markers count as -1.
pub open spec fn fret_val(t: Seq<char>) -> i8 {
    if is_digit_char(t[0]) {
        digit_val(t[0]) as i8
    } else {
        -1i8
    }
}

/// All fret tokens of a token list are well formed.
pub open spec fn all_frets_ok(toks: Seq<Seq<char>>) -> bool {
    forall|i: int| 4 <= i < toks.len() ==> fret_token_ok(#[trigger] toks[i])
}

/// The argument grammar of `{define: ...}`: a chord name, the keyword
/// `base-fret` and a barre fret that fits a signed byte, the keyword
/// `frets`, and four to six fret tokens; keywords match any letter case.
/// Yields the name and the fingering, the barre fret first.
pub open spec fn spec_parse_define(arg: Seq<char>) -> Option<(Seq<char>, Seq<i8>)> {
    let toks = ws_split(arg, 0);
    if arg.len() > 0 && !is_ws_char(arg[0]) && 8 <= toks.len() <= 10 && eq_ignore_ascii_case(
        toks[1],
        seq!['b', 'a', 's', 'e', '-', 'f', 'r', 'e', 't'],
    ) && toks[2].len() > 0 && all_digits(toks[2]) && digits_val(toks[2]) <= 127
        && eq_ignore_ascii_case(toks[3], seq!['f', 'r', 'e', 't', 's']) && all_frets_ok(toks) {
        Some(
            (
                toks[0],
                seq![digits_val(toks[2]) as i8] + Seq::new(
                    (toks.len() - 4) as nat,
                    |i: int| fret_val(toks[i + 4]),
                ),
            ),
        )
    } else {
        None
    }
}

/// Parse the argument of a `{define: ...}` directive.
#[verifier::loop_isolation(false)]
pub fn parse_define(arg: &str) -> (r: Option<(String, Vec<i8>)>)
    ensures
        match r {
            Some(t) => spec_parse_define(arg@) == Some((t.0@, t.1@)),
            None => spec_parse_define(arg@) is None,
        },
{
    if arg.is_empty() || ch_is_ws(arg.get_char(0)) {
        return None;
    }
    let toks = split_ws(arg);
    let n = toks.len();
    if n < 8 || n > 10 {
        return None;
    }
    proof {
        reveal_strlit("base-fret");
        reveal_strlit("frets");
        assert("base-fret"@ =~= seq!['b', 'a', 's', 'e', '-', 'f', 'r', 'e', 't']);
        assert("frets"@ =~= seq!['f', 'r', 'e', 't', 's']);
        assert(seg_views(toks@)[1] == toks@[1]@);
        assert(seg_views(toks@)[2] == toks@[2]@);
        assert(seg_views(toks@)[3] == toks@[3]@);
        assert(seg_views(toks@)[0] == toks@[0]@);
    }
    if !str_eq_ci(toks[1].as_str(), "base-fret") {
        return None;
    }
    if !str_eq_ci(toks[3].as_str(), "frets") {
        return None;
    }
    // The barre fret: decimal digits whose value fits a signed byte.
    let bt = toks[2].as_str();
    let btlen = bt.unicode_len();
    if btlen == 0 {
        proof {
            assert(spec_parse_define(arg@) is None);
        }
        return None;
    }
    let mut bi: usize = 0;
    while bi < btlen
        invariant
            bi <= btlen,
            btlen == bt@.len(),
            forall|j: int| 0 <= j < bi ==> is_digit_char(#[trigger] bt@[j]),
        decreases btlen - bi,
    {
        if !ch_is_digit(bt.get_char(bi)) {
            proof {
                assert(!all_digits(bt@));
            }
            return None;
        }
        bi += 1;
    }
    proof {
        assert(all_digits(bt@));
    }
    proof {
        crate::strutil::lemma_digits_val_nonneg(bt@);
        // The token is all digits, so the u8 parse reads exactly it.
        assert(bt@[0] != '+') by {
            assert(is_digit_char(bt@[0]));
        }
    }
    let base: i8 = match crate::strutil::parse_u8(bt) {
        Some(v) => {
            proof {
                assert(digits_val(bt@) == v as int);
            }
            if v > 127 {
                return None;
            }
            v as i8
        },
        None => {
            // All digits but out of byte range, so the value is past 255.
            proof {
                assert(digits_val(bt@) > 255) by {
                    if digits_val(bt@) <= 255 {
                        assert(spec_parse_u8(bt@) is Some);
                    }
                }
            }
            return None;
        },
    };
    // The fret tokens.
    let mut def: Vec<i8> = Vec::new();
    def.push(base);
    let mut i: usize = 4;
    while i < n
        invariant
            4 <= i <= n,
            n == toks@.len(),
            def@.len() == i - 3,
            def@[0] == base,
            forall|j: int| 4 <= j < i ==> fret_token_ok(#[trigger] seg_views(toks@)[j]),
            forall|j: int| 1 <= j < i - 3 ==> def@[j] == fret_val(seg_views(toks@)[j + 3]),
        decreases n - i,
    {
        let t = toks[i].as_str();
        proof {
            assert(seg_views(toks@)[i as int] == toks@[i as int]@);
        }
        if t.unicode_len() != 1 {
            proof {
                assert(!fret_token_ok(t@));
                assert(!all_frets_ok(seg_views(toks@)));
            }
            return None;
        }
        let c = t.get_char(0);
        if ch_is_digit(c) {
            def.push((c as u8 - '0' as u8) as i8);
        } else if c == 'x' || c == 'X' || c == '-' {
            def.push(-1);
        } else {
            proof {
                assert(!fret_token_ok(t@));
                assert(!all_frets_ok(seg_views(toks@)));
            }
            return None;
        }
        i += 1;
    }
    let name = toks[0].clone();
    proof {
        let toksv = seg_views(toks@);
        assert(all_frets_ok(toksv));
        assert(def@ =~= seq![digits_val(toksv[2]) as i8] + Seq::new(
            (toksv.len() - 4) as nat,
            |j: int| fret_val(toksv[j + 4]),
        ));
    }
    Some((name, def))
}

/// A song element, as the layout engine consumes them.
pub enum ChordFileExpression {
    Title { s: String },
    SubTitle { s: String },
    Comment { s: String },
    ChordDef { name: String, def: Vec<i8> },
    Chorus { lines: Vec<ChordFileExpression> },
    EndOfChorus,
    Tab { lines: Vec<String> },
    EndOfTab,
    StartColumns { n_columns: u8 },
    ColumnBreak,
    PageBreak,
    NewSong,
    Line { s: Vec<String> },
}

/// The mathematical shape of a song element.
pub enum SpecExpr {
    Title(Seq<char>),
    SubTitle(Seq<char>),
    Comment(Seq<char>),
    ChordDef(Seq<char>, Seq<i8>),
    Chorus(Seq<SpecExpr>),
    EndOfChorus,
    Tab(Seq<Seq<char>>),
    EndOfTab,
    StartColumns(u8),
    ColumnBreak,
    PageBreak,
    NewSong,
    Line(Seq<Seq<char>>),
}

/// The views of a list of song elements.
pub open spec fn elems_view(s: Seq<ChordFileExpression>) -> Seq<SpecExpr>
    decreases s,
{
    Seq::new(
        s.len(),
        |i: int|
            if 0 <= i < s.len() {
                s[i]@
            } else {
                SpecExpr::EndOfChorus
            },
    )
}

impl View for ChordFileExpression {
    type V = SpecExpr;

    open spec fn view(&self) -> SpecExpr
        decreases self,
    {
        match self {
            ChordFileExpression::Title { s } => SpecExpr::Title(s@),
            ChordFileExpression::SubTitle { s } => SpecExpr::SubTitle(s@),
            ChordFileExpression::Comment { s } => SpecExpr::Comment(s@),
            ChordFileExpression::ChordDef { name, def } => SpecExpr::ChordDef(name@, def@),
            ChordFileExpression::Chorus { lines } => SpecExpr::Chorus(elems_view(lines@)),
            ChordFileExpression::EndOfChorus => SpecExpr::EndOfChorus,
            ChordFileExpression::Tab { lines } => SpecExpr::Tab(seg_views(lines@)),
            ChordFileExpression::EndOfTab => SpecExpr::EndOfTab,
            ChordFileExpression::StartColumns { n_columns } => SpecExpr::StartColumns(*n_columns),
            ChordFileExpression::ColumnBreak => SpecExpr::ColumnBreak,
            ChordFileExpression::PageBreak => SpecExpr::PageBreak,
            ChordFileExpression::NewSong => SpecExpr::NewSong,
            ChordFileExpression::Line { s } => SpecExpr::Line(seg_views(s@)),
        }
    }
}

/// Outcome of taking one element from the line stream.
pub enum SpecStep {
    /// An element, and the position after it.
    Item(SpecExpr, int),
    /// The lines are exhausted; the position after.
    End(int),
    /// A `columns` directive with a malformed count: the stream aborts.
    Fatal,
}

/// Outcome of collecting a chorus body.
pub enum ChorusRes {
    Done(Seq<SpecExpr>, int),
    Fatal,
}

/// The next non-comment line at or after `pos`, and the position after
/// it.
pub open spec fn spec_nextline(lines: Seq<Seq<char>>, pos: int) -> Option<(Seq<char>, int)>
    decreases lines.len() - pos,
{
    if pos < 0 || pos >= lines.len() {
        None
    } else if spec_comment_line(lines[pos]) {
        spec_nextline(lines, pos + 1)
    } else {
        Some((lines[pos], pos + 1))
    }
}

/// Case-insensitive match of a directive name against an alias.
pub open spec fn is_cmd(cmd: Seq<char>, alias: Seq<char>) -> bool {
    eq_ignore_ascii_case(cmd, alias)
}

/// Take one song element from the lines, starting at `pos`: skip comment
/// lines, then read a directive or a lyric line; `soc` collects elements
/// recursively until an `EndOfChorus`, `sot` collects raw lines until a
/// tab-end marker, an unknown directive becomes a `Comment` holding the
/// directive text, a malformed `define` becomes a `Comment` holding the
/// whole line, and a malformed `columns` count aborts the stream.
pub open spec fn spec_next(lines: Seq<Seq<char>>, pos: int) -> SpecStep
    decreases lines.len() - pos, 1int,
{
    match spec_nextline(lines, pos) {
        None => SpecStep::End(lines.len() as int),
        Some(r) => {
            let line = r.0;
            let p2 = if r.1 <= pos {
                pos + 1
            } else if r.1 > lines.len() {
                lines.len() as int
            } else {
                r.1
            };
            match spec_directive(line) {
                None => SpecStep::Item(SpecExpr::Line(line_segments(line)), p2),
                Some(d) => {
                    let cmd = d.0;
                    let arg = d.1;
                    if is_cmd(cmd, "title"@) || is_cmd(cmd, "t"@) {
                        SpecStep::Item(SpecExpr::Title(arg), p2)
                    } else if is_cmd(cmd, "subtitle"@) || is_cmd(cmd, "st"@) {
                        SpecStep::Item(SpecExpr::SubTitle(arg), p2)
                    } else if is_cmd(cmd, "comment"@) || is_cmd(cmd, "c"@) || is_cmd(cmd, "ci"@)
                        || is_cmd(cmd, "cb"@) {
                        SpecStep::Item(SpecExpr::Comment(arg), p2)
                    } else if is_cmd(cmd, "define"@) {
                        match spec_parse_define(arg) {
                            Some(d2) => SpecStep::Item(SpecExpr::ChordDef(d2.0, d2.1), p2),
                            None => SpecStep::Item(SpecExpr::Comment(line), p2),
                        }
                    } else if is_cmd(cmd, "soc"@) || is_cmd(cmd, "start_of_chorus"@) {
                        match spec_chorus(lines, p2) {
                            ChorusRes::Fatal => SpecStep::Fatal,
                            ChorusRes::Done(elems, p3) => SpecStep::Item(
                                SpecExpr::Chorus(elems),
                                p3,
                            ),
                        }
                    } else if is_cmd(cmd, "eoc"@) || is_cmd(cmd, "end_of_chorus"@) {
                        SpecStep::Item(SpecExpr::EndOfChorus, p2)
                    } else if is_cmd(cmd, "sot"@) || is_cmd(cmd, "start_of_tab"@) {
                        let t = spec_tab(lines, p2);
                        SpecStep::Item(SpecExpr::Tab(t.0), t.1)
                    } else if is_cmd(cmd, "eot"@) || is_cmd(cmd, "end_of_tab"@) {
                        SpecStep::Item(SpecExpr::EndOfTab, p2)
                    } else if is_cmd(cmd, "columns"@) || is_cmd(cmd, "col"@) {
                        match spec_parse_u8(arg) {
                            Some(n) => SpecStep::Item(SpecExpr::StartColumns(n), p2),
                            None => SpecStep::Fatal,
                        }
                    } else if is_cmd(cmd, "colb"@) {
                        SpecStep::Item(SpecExpr::ColumnBreak, p2)
                    } else if is_cmd(cmd, "page_break"@) || is_cmd(cmd, "np"@) {
                        SpecStep::Item(SpecExpr::PageBreak, p2)
                    } else if is_cmd(cmd, "new_song"@) {
                        SpecStep::Item(SpecExpr::NewSong, p2)
                    } else {
                        SpecStep::Item(SpecExpr::Comment(spec_directive_text(line)), p2)
                    }
                },
            }
        },
    }
}

/// Collect the elements of a chorus until an `EndOfChorus` element or the
/// end of the input.
pub open spec fn spec_chorus(lines: Seq<Seq<char>>, pos: int) -> ChorusRes
    decreases lines.len() - pos, 2int,
{
    match spec_next(lines, pos) {
        SpecStep::Fatal => ChorusRes::Fatal,
        SpecStep::End(p) => ChorusRes::Done(Seq::empty(), p),
        SpecStep::Item(e, p2) => {
            if e is EndOfChorus {
                ChorusRes::Done(Seq::empty(), p2)
            } else if pos >= lines.len() {
                // Never reached: past the last line the stream only ends.
                ChorusRes::Done(Seq::empty(), p2)
            } else {
                let p2c = if p2 <= pos {
                    pos + 1
                } else if p2 > lines.len() {
                    lines.len() as int
                } else {
                    p2
                };
                match spec_chorus(lines, p2c) {
                    ChorusRes::Fatal => ChorusRes::Fatal,
                    ChorusRes::Done(rest, p3) => ChorusRes::Done(seq![e] + rest, p3),
                }
            }
        },
    }
}

/// Collect raw tab lines (still dropping comment lines) until a line with
/// a tab-end marker or the end of the input.
pub open spec fn spec_tab(lines: Seq<Seq<char>>, pos: int) -> (Seq<Seq<char>>, int)
    decreases lines.len() - pos, 0int,
{
    match spec_nextline(lines, pos) {
        None => (Seq::empty(), lines.len() as int),
        Some(r) => {
            let line = r.0;
            let p2 = if r.1 <= pos {
                pos + 1
            } else if r.1 > lines.len() {
                lines.len() as int
            } else {
                r.1
            };
            if has_tab_end(line) {
                (Seq::empty(), p2)
            } else {
                let t = spec_tab(lines, p2);
                (seq![line] + t.0, t.1)
            }
        },
    }
}

/// The stream aborted on a malformed `columns` directive; the argument
/// that did not parse is kept for the report.
#[derive(Debug)]
pub enum ParseError {
    BadColumns { arg: String },
}

/// A lyric line for the purposes of the block laws: not dropped as a
/// source comment and holding no directive.
pub open spec fn plain_line(l: Seq<char>) -> bool {
    !spec_comment_line(l) && spec_directive(l) is None
}

/// A line carrying a directive whose name matches the alias, and which is
/// not dropped as a source comment.
pub open spec fn directive_line(l: Seq<char>, alias: Seq<char>) -> bool {
    !spec_comment_line(l) && match spec_directive(l) {
        Some(d) => is_cmd(d.0, alias),
        None => false,
    }
}

/// The distinct directive names cannot both match one name.
proof fn lemma_alias_facts(cmd: Seq<char>)
    ensures
        is_cmd(cmd, "eoc"@) ==> !is_cmd(cmd, "title"@) && !is_cmd(cmd, "t"@) && !is_cmd(
            cmd,
            "subtitle"@,
        ) && !is_cmd(cmd, "st"@) && !is_cmd(cmd, "comment"@) && !is_cmd(cmd, "c"@) && !is_cmd(
            cmd,
            "ci"@,
        ) && !is_cmd(cmd, "cb"@) && !is_cmd(cmd, "define"@) && !is_cmd(cmd, "soc"@) && !is_cmd(
            cmd,
            "start_of_chorus"@,
        ),
        is_cmd(cmd, "soc"@) ==> !is_cmd(cmd, "title"@) && !is_cmd(cmd, "t"@) && !is_cmd(
            cmd,
            "subtitle"@,
        ) && !is_cmd(cmd, "st"@) && !is_cmd(cmd, "comment"@) && !is_cmd(cmd, "c"@) && !is_cmd(
            cmd,
            "ci"@,
        ) && !is_cmd(cmd, "cb"@) && !is_cmd(cmd, "define"@),
        is_cmd(cmd, "define"@) ==> !is_cmd(cmd, "title"@) && !is_cmd(cmd, "t"@) && !is_cmd(
            cmd,
            "subtitle"@,
        ) && !is_cmd(cmd, "st"@) && !is_cmd(cmd, "comment"@) && !is_cmd(cmd, "c"@) && !is_cmd(
            cmd,
            "ci"@,
        ) && !is_cmd(cmd, "cb"@),
{
    reveal_strlit("eoc");
    reveal_strlit("soc");
    reveal_strlit("define");
    reveal_strlit("title");
    reveal_strlit("t");
    reveal_strlit("subtitle");
    reveal_strlit("st");
    reveal_strlit("comment");
    reveal_strlit("c");
    reveal_strlit("ci");
    reveal_strlit("cb");
    reveal_strlit("start_of_chorus");
    if is_cmd(cmd, "eoc"@) && is_cmd(cmd, "soc"@) {
        assert("eoc"@[0] == 'e');
        assert("soc"@[0] == 's');
        assert(ascii_ci_eq(cmd[0], 'e') && ascii_ci_eq(cmd[0], 's'));
        assert(false);
    }
}

/// The line at `j` yields exactly one element, consuming only itself,
/// and that element does not end a chorus.
pub open spec fn one_element_line(lines: Seq<Seq<char>>, j: int) -> bool {
    &&& spec_next(lines, j) matches SpecStep::Item(e, p)
    &&& spec_next(lines, j)->Item_1 == j + 1
    &&& !(spec_next(lines, j)->Item_0 is EndOfChorus)
}

/// The element that the line at `j` yields.
pub open spec fn element_at(lines: Seq<Seq<char>>, j: int) -> SpecExpr {
    spec_next(lines, j)->Item_0
}

/// A lyric line yields one `Line` element holding its segments.
pub proof fn lemma_plain_line_element(lines: Seq<Seq<char>>, j: int)
    requires
        0 <= j < lines.len(),
        plain_line(lines[j]),
    ensures
        one_element_line(lines, j),
        element_at(lines, j) == SpecExpr::Line(line_segments(lines[j])),
{
    assert(spec_nextline(lines, j) == Some((lines[j], j + 1)));
    assert(spec_next(lines, j) == SpecStep::Item(
        SpecExpr::Line(line_segments(lines[j])),
        j + 1,
    ));
}

/// The body of a chorus block parses to one element per line.
proof fn lemma_chorus_body(lines: Seq<Seq<char>>, p: int, n: int)
    requires
        0 <= p,
        0 <= n,
        p + n < lines.len(),
        forall|j: int| p <= j < p + n ==> one_element_line(lines, j),
        directive_line(lines[p + n], "eoc"@),
    ensures
        spec_chorus(lines, p) == ChorusRes::Done(
            Seq::new(n as nat, |i: int| element_at(lines, p + i)),
            p + n + 1,
        ),
    decreases n,
{
    if n == 0 {
        let line = lines[p];
        let d = spec_directive(line)->Some_0;
        lemma_alias_facts(d.0);
        assert(spec_nextline(lines, p) == Some((line, p + 1)));
        assert(spec_next(lines, p) == SpecStep::Item(SpecExpr::EndOfChorus, p + 1));
        assert(Seq::new(0nat, |i: int| element_at(lines, p + i)) =~= Seq::<SpecExpr>::empty());
    } else {
        assert(one_element_line(lines, p));
        let e = element_at(lines, p);
        assert(spec_next(lines, p) == SpecStep::Item(e, p + 1));
        lemma_chorus_body(lines, p + 1, n - 1);
        let rest = Seq::new((n - 1) as nat, |i: int| element_at(lines, p + 1 + i));
        assert(spec_chorus(lines, p + 1) == ChorusRes::Done(rest, p + n + 1));
        assert(seq![e] + rest =~= Seq::new(n as nat, |i: int| element_at(lines, p + i)));
    }
}

/// Parsing `{soc}`, then `n` lines that each yield one element, then
/// `{eoc}` yields exactly one `Chorus` element holding those `n` elements
/// in source order; the `{eoc}` is consumed but not included, and the
/// stream continues after it.  A lyric line yields one element by
/// [`lemma_plain_line_element`]; a nested block spans several lines but
/// still counts as the one `Chorus` element its opening line yields.
pub proof fn lemma_chorus_block(lines: Seq<Seq<char>>, pos: int, n: int)
    requires
        0 <= pos,
        0 <= n,
        pos + n + 1 < lines.len(),
        directive_line(lines[pos], "soc"@),
        forall|j: int| pos + 1 <= j < pos + 1 + n ==> one_element_line(lines, j),
        directive_line(lines[pos + n + 1], "eoc"@),
    ensures
        spec_next(lines, pos) == SpecStep::Item(
            SpecExpr::Chorus(Seq::new(n as nat, |i: int| element_at(lines, pos + 1 + i))),
            pos + n + 2,
        ),
{
    let line = lines[pos];
    let d = spec_directive(line)->Some_0;
    lemma_alias_facts(d.0);
    assert(spec_nextline(lines, pos) == Some((line, pos + 1)));
    lemma_chorus_body(lines, pos + 1, n);
}

/// A `define` directive whose argument does not fit the grammar yields a
/// `Comment` element holding the whole line, never a failure, so no
/// malformed fingering ever reaches the chord resolver.
pub proof fn lemma_bad_define_is_comment(lines: Seq<Seq<char>>, pos: int)
    requires
        0 <= pos < lines.len(),
        directive_line(lines[pos], "define"@),
        spec_parse_define(spec_directive(lines[pos])->Some_0.1) is None,
    ensures
        spec_next(lines, pos) == SpecStep::Item(SpecExpr::Comment(lines[pos]), pos + 1),
{
    let line = lines[pos];
    let d = spec_directive(line)->Some_0;
    lemma_alias_facts(d.0);
    assert(spec_nextline(lines, pos) == Some((line, pos + 1)));
}

/// A one-pass reader of chopro lines, handing out song elements.
///
/// Recoverable anomalies (an unknown directive, a bad chord definition)
/// never stop the stream: the element gets a safe fallback and a warning
/// line is queued for [`Self::take_warnings`].
pub struct ChoproParser {
    lines: Vec<String>,
    pos: usize,
    eof: bool,
    warnings: Vec<String>,
}

impl ChoproParser {
    /// The input lines.
    pub closed spec fn lines_view(&self) -> Seq<Seq<char>> {
        seg_views(self.lines@)
    }

    /// How many lines have been consumed.
    pub closed spec fn spec_pos(&self) -> int {
        self.pos as int
    }

    /// Whether a read has hit the end of the input.
    pub closed spec fn spec_eof(&self) -> bool {
        self.eof
    }

    /// The queued warning lines.
    pub closed spec fn spec_warnings(&self) -> Seq<Seq<char>> {
        seg_views(self.warnings@)
    }

    /// The position stays within the input, and the end flag is only set
    /// at its end.
    pub closed spec fn wf(&self) -> bool {
        self.pos <= self.lines@.len() && (self.eof ==> self.pos == self.lines@.len())
    }

    /// A parser at the start of the given lines.
    pub fn new(lines: Vec<String>) -> (r: ChoproParser)
        ensures
            r.wf(),
            r.lines_view() == seg_views(lines@),
            r.spec_pos() == 0,
            !r.spec_eof(),
            r.spec_warnings() == Seq::<Seq<char>>::empty(),
    {
        let r = ChoproParser { lines, pos: 0, eof: false, warnings: Vec::new() };
        proof {
            assert(r.spec_warnings() =~= Seq::<Seq<char>>::empty());
        }
        r
    }

    /// Hand out the queued warning lines and forget them.
    pub fn take_warnings(&mut self) -> (r: Vec<String>)
        ensures
            seg_views(r@) == old(self).spec_warnings(),
            final(self).spec_warnings() == Seq::<Seq<char>>::empty(),
            final(self).wf() == old(self).wf(),
            final(self).lines_view() == old(self).lines_view(),
            final(self).spec_pos() == old(self).spec_pos(),
            final(self).spec_eof() == old(self).spec_eof(),
    {
        let mut r: Vec<String> = Vec::new();
        let mut i: usize = 0;
        while i < self.warnings.len()
            invariant
                i <= self.warnings@.len(),
                r@.len() == i,
                forall|j: int| 0 <= j < i ==> (#[trigger] r@[j])@ == self.warnings@[j]@,
                self == old(self),
            decreases self.warnings@.len() - i,
        {
            r.push(self.warnings[i].clone());
            i += 1;
        }
        self.warnings = Vec::new();
        proof {
            assert(seg_views(r@) =~= old(self).spec_warnings());
            assert(self.spec_warnings() =~= Seq::<Seq<char>>::empty());
        }
        r
    }

    /// Whether the source has run dry.
    pub fn is_eof(&self) -> (r: bool)
        ensures
            r == self.spec_eof(),
    {
        self.eof
    }

    /// The next line that is not a source comment.
    #[verifier::loop_isolation(false)]
    fn nextline(&mut self) -> (r: Option<String>)
        requires
            old(self).wf(),
        ensures
            final(self).wf(),
            final(self).lines_view() == old(self).lines_view(),
            final(self).lines@ == old(self).lines@,
            match r {
                Some(s) => spec_nextline(old(self).lines_view(), old(self).spec_pos()) == Some(
                    (s@, final(self).spec_pos()),
                ) && old(self).spec_pos() < final(self).spec_pos() && final(self).spec_eof() == old(self).spec_eof(),
                None => spec_nextline(old(self).lines_view(), old(self).spec_pos()) is None
                    && final(self).spec_pos() == old(self).lines_view().len() && final(self).spec_eof(),
            },
    {
        loop
            invariant
                self.wf(),
                self.lines@ == old(self).lines@,
                self.eof == old(self).eof,
                old(self).pos <= self.pos,
                spec_nextline(self.lines_view(), old(self).spec_pos()) == spec_nextline(
                    self.lines_view(),
                    self.spec_pos(),
                ),
            decreases self.lines@.len() - self.pos,
        {
            if self.pos >= self.lines.len() {
                self.eof = true;
                return None;
            }
            let line = self.lines[self.pos].clone();
            proof {
                assert(self.lines_view()[self.pos as int] == line@);
            }
            self.pos = self.pos + 1;
            if !is_comment_line(line.as_str()) {
                return Some(line);
            }
        }
    }

    /// Take the next song element from the source; `Ok(None)` at the end
    /// of the input, and an error when a `columns` directive carries a
    /// count that is not a number.
    #[verifier::loop_isolation(false)]
    pub fn next(&mut self) -> (r: Result<Option<ChordFileExpression>, ParseError>)
        requires
            old(self).wf(),
        ensures
            final(self).wf(),
            final(self).lines_view() == old(self).lines_view(),
            match r {
                Ok(Some(e)) => spec_next(old(self).lines_view(), old(self).spec_pos())
                    == SpecStep::Item(e@, final(self).spec_pos()) && old(self).spec_pos() < final(self).spec_pos(),
                Ok(None) => spec_next(old(self).lines_view(), old(self).spec_pos())
                    == SpecStep::End(final(self).spec_pos()) && final(self).spec_eof() && final(self).spec_pos() == old(self).lines_view().len(),
                Err(_) => spec_next(old(self).lines_view(), old(self).spec_pos())
                    == SpecStep::Fatal,
            },
        decreases old(self).lines_view().len() - old(self).spec_pos(),
    {
        let ghost lv = self.lines_view();
        let ghost pos0 = self.spec_pos();
        let line = match self.nextline() {
            None => {
                return Ok(None);
            },
            Some(line) => line,
        };
        let ghost p2 = self.spec_pos();
        let directive = find_directive(line.as_str());
        match directive {
            None => {
                let segs = split_line(line.as_str());
                Ok(Some(ChordFileExpression::Line { s: segs }))
            },
            Some(cat) => {
                let (cmd_s, arg, text) = cat;
                let cmd = cmd_s.as_str();
                if str_eq_ci(cmd, "title") || str_eq_ci(cmd, "t") {
                    Ok(Some(ChordFileExpression::Title { s: arg }))
                } else if str_eq_ci(cmd, "subtitle") || str_eq_ci(cmd, "st") {
                    Ok(Some(ChordFileExpression::SubTitle { s: arg }))
                } else if str_eq_ci(cmd, "comment") || str_eq_ci(cmd, "c") || str_eq_ci(cmd, "ci")
                    || str_eq_ci(cmd, "cb") {
                    Ok(Some(ChordFileExpression::Comment { s: arg }))
                } else if str_eq_ci(cmd, "define") {
                    match parse_define(arg.as_str()) {
                        Some(nd) => {
                            let (name, def) = nd;
                            Ok(Some(ChordFileExpression::ChordDef { name, def }))
                        },
                        None => {
                            let msg = String::from_str("Warning: Bad chord definition ").concat(
                                text.as_str(),
                            );
                            self.warnings.push(msg);
                            Ok(Some(ChordFileExpression::Comment { s: line }))
                        },
                    }
                } else if str_eq_ci(cmd, "soc") || str_eq_ci(cmd, "start_of_chorus") {
                    let mut items: Vec<ChordFileExpression> = Vec::new();
                    loop
                        invariant
                            self.wf(),
                            self.lines_view() == lv,
                            p2 <= self.spec_pos(),
                            pos0 < self.spec_pos(),
                            spec_chorus(lv, p2) == (match spec_chorus(lv, self.spec_pos()) {
                                ChorusRes::Fatal => ChorusRes::Fatal,
                                ChorusRes::Done(rest, p3) => ChorusRes::Done(
                                    elems_view(items@) + rest,
                                    p3,
                                ),
                            }),
                        decreases self.lines@.len() - self.pos,
                    {
                        let ghost cur = self.spec_pos();
                        let ghost items0 = items@;
                        match self.next() {
                            Err(e) => {
                                return Err(e);
                            },
                            Ok(None) => {
                                proof {
                                    assert(spec_chorus(lv, cur) == ChorusRes::Done(
                                        Seq::empty(),
                                        self.spec_pos(),
                                    ));
                                    assert(elems_view(items@) + Seq::<SpecExpr>::empty()
                                        =~= elems_view(items@));
                                }
                                return Ok(
                                    Some(ChordFileExpression::Chorus { lines: items }),
                                );
                            },
                            Ok(Some(e)) => {
                                if matches!(e, ChordFileExpression::EndOfChorus) {
                                    proof {
                                        assert(e@ is EndOfChorus);
                                        assert(spec_chorus(lv, cur) == ChorusRes::Done(
                                            Seq::empty(),
                                            self.spec_pos(),
                                        ));
                                        assert(elems_view(items@) + Seq::<SpecExpr>::empty()
                                            =~= elems_view(items@));
                                    }
                                    return Ok(
                                        Some(ChordFileExpression::Chorus { lines: items }),
                                    );
                                }
                                proof {
                                    assert(!(e@ is EndOfChorus));
                                }
                                items.push(e);
                                proof {
                                    let ev = items@[items@.len() - 1]@;
                                    assert(elems_view(items@) =~= elems_view(items0) + seq![ev]);
                                    match spec_chorus(lv, self.spec_pos()) {
                                        ChorusRes::Fatal => {},
                                        ChorusRes::Done(rest, p3) => {
                                            assert((elems_view(items0) + seq![ev]) + rest
                                                =~= elems_view(items0) + (seq![ev] + rest));
                                        },
                                    }
                                }
                            },
                        }
                    }
                } else if str_eq_ci(cmd, "eoc") || str_eq_ci(cmd, "end_of_chorus") {
                    Ok(Some(ChordFileExpression::EndOfChorus))
                } else if str_eq_ci(cmd, "sot") || str_eq_ci(cmd, "start_of_tab") {
                    let mut tlines: Vec<String> = Vec::new();
                    loop
                        invariant
                            self.wf(),
                            self.lines_view() == lv,
                            self.lines@ == old(self).lines@,
                            p2 <= self.spec_pos(),
                            pos0 < self.spec_pos(),
                            spec_tab(lv, p2).0 == seg_views(tlines@) + spec_tab(
                                lv,
                                self.spec_pos(),
                            ).0,
                            spec_tab(lv, p2).1 == spec_tab(lv, self.spec_pos()).1,
                        decreases self.lines@.len() - self.pos,
                    {
                        let ghost cur = self.spec_pos();
                        let ghost tlines0 = tlines@;
                        match self.nextline() {
                            None => {
                                proof {
                                    assert(spec_tab(lv, cur).0 =~= Seq::<Seq<char>>::empty());
                                    assert(seg_views(tlines@) + Seq::<Seq<char>>::empty()
                                        =~= seg_views(tlines@));
                                }
                                return Ok(Some(ChordFileExpression::Tab { lines: tlines }));
                            },
                            Some(tl) => {
                                if is_tab_end(tl.as_str()) {
                                    proof {
                                        assert(spec_tab(lv, cur).0 =~= Seq::<Seq<char>>::empty());
                                        assert(seg_views(tlines@) + Seq::<Seq<char>>::empty()
                                            =~= seg_views(tlines@));
                                    }
                                    return Ok(
                                        Some(ChordFileExpression::Tab { lines: tlines }),
                                    );
                                }
                                tlines.push(tl);
                                proof {
                                    assert(seg_views(tlines@) =~= seg_views(tlines0) + seq![
                                        tlines@[tlines@.len() - 1]@,
                                    ]);
                                    assert((seg_views(tlines0) + seq![
                                        tlines@[tlines@.len() - 1]@,
                                    ]) + spec_tab(lv, self.spec_pos()).0 =~= seg_views(tlines0)
                                        + (seq![tlines@[tlines@.len() - 1]@] + spec_tab(
                                        lv,
                                        self.spec_pos(),
                                    ).0));
                                }
                            },
                        }
                    }
                } else if str_eq_ci(cmd, "eot") || str_eq_ci(cmd, "end_of_tab") {
                    Ok(Some(ChordFileExpression::EndOfTab))
                } else if str_eq_ci(cmd, "columns") || str_eq_ci(cmd, "col") {
                    match crate::strutil::parse_u8(arg.as_str()) {
                        Some(n) => Ok(Some(ChordFileExpression::StartColumns { n_columns: n })),
                        None => Err(ParseError::BadColumns { arg }),
                    }
                } else if str_eq_ci(cmd, "colb") {
                    Ok(Some(ChordFileExpression::ColumnBreak))
                } else if str_eq_ci(cmd, "page_break") || str_eq_ci(cmd, "np") {
                    Ok(Some(ChordFileExpression::PageBreak))
                } else if str_eq_ci(cmd, "new_song") {
                    Ok(Some(ChordFileExpression::NewSong))
                } else {
                    let msg = String::from_str("unknown expression ").concat(cmd);
                    self.warnings.push(msg);
                    Ok(Some(ChordFileExpression::Comment { s: text }))
                }
            },
        }
    }
}

} // verus!
