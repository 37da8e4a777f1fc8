//! Grid counts for the block of chord-fingering boxes drawn at the bottom
//! of a song.
//!
//! The grid fills from the bottom up: the first (lowest) row holds the
//! remainder of the chords, right-aligned, and every row above it is full,
//! mirroring the "last line is short" convention of set text.

use vstd::prelude::*;

verus! {

/// Number of rows and size of the first (bottom) row of a chord-box grid.
///
/// `n_chords` boxes are laid out with at most `n_aside` boxes per row.
/// Returns `(n_rows, n_first)`: the number of rows (the ceiling of
/// `n_chords / n_aside`) and the number of boxes in the bottom row (the
/// remainder, or a full row when `n_aside` divides `n_chords` evenly);
/// every other row holds exactly `n_aside` boxes.
pub fn chordbox_grid(n_chords: u32, n_aside: u32) -> (r: (u32, u32))
    requires
        n_chords >= 1,
        n_aside >= 1,
        n_chords + n_aside - 1 <= u32::MAX,
    ensures
        r.0 == (n_chords + n_aside - 1) / (n_aside as int),
        r.1 == n_chords - (r.0 - 1) * n_aside,
        (r.0 - 1) * n_aside < n_chords <= r.0 * n_aside,
        1 <= r.1 <= n_aside,
        n_chords % n_aside == 0 ==> r.1 == n_aside,
        n_chords % n_aside != 0 ==> r.1 == n_chords % n_aside,
{
    let n_rows = (n_chords - 1 + n_aside) / n_aside;
    proof {
        lemma_grid_bounds(n_chords as int, n_aside as int);
    }
    let n_first = n_chords - (n_rows - 1) * n_aside;
    (n_rows, n_first)
}

/// Arithmetic facts behind the grid counts: with `r` rows of width `a`
/// holding `c` boxes, the last started row is neither empty nor overfull,
/// and its fill equals the division remainder (or a full row).
proof fn lemma_grid_bounds(c: int, a: int)
    requires
        c >= 1,
        a >= 1,
    ensures
        ({
            let r = (c + a - 1) / a;
            &&& 1 <= r
            &&& (r - 1) * a < c <= r * a
            &&& 1 <= c - (r - 1) * a <= a
            &&& c % a == 0 ==> c - (r - 1) * a == a
            &&& c % a != 0 ==> c - (r - 1) * a == c % a
        }),
{
    let x = c + a - 1;
    let r = x / a;
    let m = x % a;
    vstd::arithmetic::div_mod::lemma_fundamental_div_mod(x, a);
    vstd::arithmetic::div_mod::lemma_mod_bound(x, a);
    assert(c == (r - 1) * a + (m + 1)) by (nonlinear_arith)
        requires
            x == a * r + m && x == c + a - 1,
    ;
    assert((r - 1) * a < c <= r * a) by (nonlinear_arith)
        requires
            c == (r - 1) * a + (m + 1) && 0 <= m < a,
    ;
    assert(1 <= r) by (nonlinear_arith)
        requires
            c >= 1 && a >= 1 && c <= r * a,
    ;
    if m + 1 == a {
        assert(c == r * a + 0) by (nonlinear_arith)
            requires
                c == (r - 1) * a + (m + 1) && m + 1 == a,
        ;
        vstd::arithmetic::div_mod::lemma_fundamental_div_mod_converse(c, a, r, 0);
    } else {
        vstd::arithmetic::div_mod::lemma_fundamental_div_mod_converse(c, a, r - 1, m + 1);
    }
}

} // verus!
