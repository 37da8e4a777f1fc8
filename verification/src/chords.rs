//! Chord fingerings: the per-song chord resolver and its tables.
//!
//! A fingering is a vector of small integers: element 0 is the barre fret
//! (0 or 1 mean "no barre label"), and one element per string follows,
//! where -1 is a muted string, 0 an open string, a positive value a fret
//! to dot, and -2 the "unknown chord" sentinel that renders nothing.
//!
//! A [`ChordHolder`] collects the chord names a song actually uses and
//! resolves each to a fingering: a local `{define: ...}` override wins
//! over the built-in table, the table is retried under an enharmonic
//! rewrite of the name, and an unknown name falls back to a placeholder
//! fingering made of the unknown sentinel.

use vstd::prelude::*;

use crate::chordtable::{guitar_chords, guitar_table, mandolin_chords, mandolin_table};
use crate::strutil::{lex_lt, lemma_lex_lt_total, lemma_lex_lt_trans, str_eq, str_lt};

verus! {

/// The instrument whose chord table and diagram arity are in use.
#[derive(PartialEq, Eq, Structural, Debug, Copy, Clone)]
pub enum Instrument {
    /// Guitar in e-a-d-g-b-e tuning without capo.
    Guitar,
    /// Mandolin in g-d-a-e tuning.
    Mandolin,
}

impl Default for Instrument {
    fn default() -> (r: Self)
        ensures
            r == Instrument::Guitar,
    {
        Instrument::Guitar
    }
}

/// Number of strings of the instrument.
pub open spec fn spec_strings(i: Instrument) -> int {
    match i {
        Instrument::Guitar => 6,
        Instrument::Mandolin => 4,
    }
}

/// Name of the entry at index `i` of an association list.
pub open spec fn key_at(s: Seq<(String, Vec<i8>)>, i: int) -> Seq<char> {
    s[i].0@
}

/// Fingering of the entry at index `i` of an association list.
pub open spec fn val_at(s: Seq<(String, Vec<i8>)>, i: int) -> Seq<i8> {
    s[i].1@
}

/// The names of the list are strictly increasing, hence distinct.
pub open spec fn sorted_keys(s: Seq<(String, Vec<i8>)>) -> bool {
    forall|i: int, j: int|
        0 <= i < j < s.len() ==> lex_lt(#[trigger] key_at(s, i), #[trigger] key_at(s, j))
}

/// Some entry of the list has the name `k`.
pub open spec fn assoc_has(s: Seq<(String, Vec<i8>)>, k: Seq<char>) -> bool {
    exists|i: int| 0 <= i < s.len() && #[trigger] key_at(s, i) == k
}

/// The association list as a map from names to fingerings.
pub open spec fn assoc_map(s: Seq<(String, Vec<i8>)>) -> Map<Seq<char>, Seq<i8>> {
    Map::new(
        |k: Seq<char>| assoc_has(s, k),
        |k: Seq<char>| val_at(s, choose|i: int| 0 <= i < s.len() && #[trigger] key_at(s, i) == k),
    )
}

/// Every fingering of the list has length `n`.
pub open spec fn all_arity(s: Seq<(String, Vec<i8>)>, n: int) -> bool {
    forall|i: int| 0 <= i < s.len() ==> (#[trigger] val_at(s, i)).len() == n
}

/// In a sorted list the entry holding a name is unique, so the map reads
/// the fingering stored beside that name.
proof fn lemma_assoc_at(s: Seq<(String, Vec<i8>)>, i: int)
    requires
        sorted_keys(s),
        0 <= i < s.len(),
    ensures
        assoc_has(s, key_at(s, i)),
        assoc_map(s)[key_at(s, i)] == val_at(s, i),
{
    let k = key_at(s, i);
    assert(assoc_has(s, k));
    let j = choose|j: int| 0 <= j < s.len() && #[trigger] key_at(s, j) == k;
    if j != i {
        if j < i {
            lemma_lex_lt_total(key_at(s, j), key_at(s, i));
        } else {
            lemma_lex_lt_total(key_at(s, i), key_at(s, j));
        }
    }
}

/// Find the entry holding `name`, if any.
fn assoc_find(v: &Vec<(String, Vec<i8>)>, name: &str) -> (r: Option<usize>)
    ensures
        match r {
            Some(i) => 0 <= i < v@.len() && key_at(v@, i as int) == name@,
            None => !assoc_has(v@, name@),
        },
{
    let mut i: usize = 0;
    while i < v.len()
        invariant
            i <= v@.len(),
            forall|j: int| 0 <= j < i ==> #[trigger] key_at(v@, j) != name@,
        decreases v@.len() - i,
    {
        if str_eq(v[i].0.as_str(), name) {
            return Some(i);
        }
        i += 1;
    }
    None
}

/// Removing the entry at `i` from a sorted list removes exactly its name
/// from the map.
proof fn lemma_assoc_remove(s: Seq<(String, Vec<i8>)>, i: int)
    requires
        sorted_keys(s),
        0 <= i < s.len(),
    ensures
        sorted_keys(s.remove(i)),
        assoc_map(s.remove(i)) == assoc_map(s).remove(key_at(s, i)),
        s.remove(i).len() == s.len() - 1,
        forall|j: int| 0 <= j < i ==> #[trigger] s.remove(i)[j] == s[j],
        forall|j: int| i <= j < s.len() - 1 ==> #[trigger] s.remove(i)[j] == s[j + 1],
{
    let t = s.remove(i);
    let k = key_at(s, i);
    s.remove_ensures(i);
    assert(forall|j: int| 0 <= j < i ==> t[j] == s[j]);
    assert(forall|j: int| i <= j < t.len() ==> t[j] == s[j + 1]);
    assert forall|p: int, q: int| 0 <= p < q < t.len() implies lex_lt(
        #[trigger] key_at(t, p),
        #[trigger] key_at(t, q),
    ) by {
        let p2 = if p < i {
            p
        } else {
            p + 1
        };
        let q2 = if q < i {
            q
        } else {
            q + 1
        };
        assert(key_at(t, p) == key_at(s, p2));
        assert(key_at(t, q) == key_at(s, q2));
    }
    assert forall|n: Seq<char>| #[trigger] assoc_has(t, n) implies assoc_has(s, n) && n != k by {
        let j = choose|j: int| 0 <= j < t.len() && #[trigger] key_at(t, j) == n;
        let j2 = if j < i {
            j
        } else {
            j + 1
        };
        assert(key_at(s, j2) == n);
        if n == k {
            if j2 < i {
                lemma_lex_lt_total(key_at(s, j2), key_at(s, i));
            } else {
                lemma_lex_lt_total(key_at(s, i), key_at(s, j2));
            }
        }
    }
    assert forall|n: Seq<char>| assoc_has(s, n) && n != k implies #[trigger] assoc_has(t, n)
        && assoc_map(t)[n] == assoc_map(s)[n] by {
        let j = choose|j: int| 0 <= j < s.len() && #[trigger] key_at(s, j) == n;
        if j < i {
            assert(key_at(t, j) == n);
            lemma_assoc_at(t, j);
            lemma_assoc_at(s, j);
        } else {
            assert(j != i);
            assert(key_at(t, j - 1) == n);
            lemma_assoc_at(t, j - 1);
            lemma_assoc_at(s, j);
        }
    }
    assert(assoc_map(t) =~= assoc_map(s).remove(k));
}

/// Inserting an entry whose name splits a sorted list at `i` keeps it
/// sorted and adds exactly that binding to the map.
proof fn lemma_assoc_insert(s: Seq<(String, Vec<i8>)>, i: int, e: (String, Vec<i8>))
    requires
        sorted_keys(s),
        0 <= i <= s.len(),
        forall|j: int| 0 <= j < i ==> lex_lt(#[trigger] key_at(s, j), e.0@),
        forall|j: int| i <= j < s.len() ==> lex_lt(e.0@, #[trigger] key_at(s, j)),
    ensures
        sorted_keys(s.insert(i, e)),
        assoc_map(s.insert(i, e)) == assoc_map(s).insert(e.0@, e.1@),
        s.insert(i, e).len() == s.len() + 1,
        s.insert(i, e)[i] == e,
        forall|j: int| 0 <= j < i ==> #[trigger] s.insert(i, e)[j] == s[j],
        forall|j: int| i < j < s.len() + 1 ==> #[trigger] s.insert(i, e)[j] == s[j - 1],
{
    let t = s.insert(i, e);
    let k = e.0@;
    s.insert_ensures(i, e);
    assert(forall|j: int| 0 <= j < i ==> t[j] == s[j]);
    assert(forall|j: int| i < j < t.len() ==> t[j] == s[j - 1]);
    assert(t[i] == e);
    assert forall|p: int, q: int| 0 <= p < q < t.len() implies lex_lt(
        #[trigger] key_at(t, p),
        #[trigger] key_at(t, q),
    ) by {
        if p == i {
            assert(key_at(t, q) == key_at(s, q - 1));
        } else if q == i {
            assert(key_at(t, p) == key_at(s, p));
        } else {
            let p2 = if p < i {
                p
            } else {
                p - 1
            };
            let q2 = if q < i {
                q
            } else {
                q - 1
            };
            assert(key_at(t, p) == key_at(s, p2));
            assert(key_at(t, q) == key_at(s, q2));
            if p < i && q > i {
                lemma_lex_lt_trans(key_at(s, p2), k, key_at(s, q2));
            }
        }
    }
    assert(assoc_has(t, k)) by {
        assert(key_at(t, i) == k);
    }
    assert forall|n: Seq<char>| #[trigger] assoc_has(t, n) && n != k implies assoc_has(s, n)
        && assoc_map(t)[n] == assoc_map(s)[n] by {
        let j = choose|j: int| 0 <= j < t.len() && #[trigger] key_at(t, j) == n;
        assert(j != i);
        let j2 = if j < i {
            j
        } else {
            j - 1
        };
        assert(key_at(s, j2) == n);
        lemma_assoc_at(t, j);
        lemma_assoc_at(s, j2);
    }
    assert forall|n: Seq<char>| assoc_has(s, n) implies #[trigger] assoc_has(t, n) by {
        let j = choose|j: int| 0 <= j < s.len() && #[trigger] key_at(s, j) == n;
        if j < i {
            assert(key_at(t, j) == n);
        } else {
            assert(key_at(t, j + 1) == n);
        }
    }
    lemma_assoc_at(t, i);
    assert(assoc_map(t) =~= assoc_map(s).insert(k, e.1@));
}

/// Insert a binding into a sorted association list, replacing the
/// fingering when the name is already bound (so a later binding wins).
pub(crate) fn assoc_insert(v: &mut Vec<(String, Vec<i8>)>, name: String, val: Vec<i8>)
    requires
        sorted_keys(old(v)@),
    ensures
        sorted_keys(final(v)@),
        assoc_map(final(v)@) == assoc_map(old(v)@).insert(name@, val@),
        (forall|j: int| 0 <= j < old(v)@.len() ==> (#[trigger] val_at(old(v)@, j)).len()
            == val@.len()) ==> (forall|i: int|
            0 <= i < final(v)@.len() ==> (#[trigger] val_at(final(v)@, i)).len() == val@.len()),
{
    let ghost s0 = v@;
    let mut i: usize = 0;
    while i < v.len() && str_lt(v[i].0.as_str(), name.as_str())
        invariant
            i <= v@.len(),
            v@ == s0,
            sorted_keys(v@),
            forall|j: int| 0 <= j < i ==> lex_lt(#[trigger] key_at(v@, j), name@),
        decreases v@.len() - i,
    {
        i += 1;
    }
    proof {
        if i < v@.len() {
            assert forall|j: int| i < j < v@.len() implies lex_lt(name@, #[trigger] key_at(v@, j))
                && key_at(v@, j) != name@ by {
                lemma_lex_lt_total(key_at(v@, i as int), name@);
                if key_at(v@, i as int) == name@ {
                    lemma_lex_lt_total(name@, key_at(v@, j));
                } else {
                    lemma_lex_lt_trans(name@, key_at(v@, i as int), key_at(v@, j));
                    lemma_lex_lt_total(name@, key_at(v@, j));
                }
            }
        }
    }
    if i < v.len() && str_eq(v[i].0.as_str(), name.as_str()) {
        proof {
            lemma_assoc_remove(s0, i as int);
            let mid = s0.remove(i as int);
            assert forall|j: int| 0 <= j < i implies lex_lt(#[trigger] key_at(mid, j), name@) by {
                assert(mid[j] == s0[j]);
                assert(key_at(mid, j) == key_at(s0, j));
            }
            assert forall|j: int| i <= j < mid.len() implies lex_lt(
                name@,
                #[trigger] key_at(mid, j),
            ) by {
                assert(mid[j] == s0[j + 1]);
                assert(key_at(mid, j) == key_at(s0, j + 1));
            }
            lemma_assoc_insert(mid, i as int, (name, val));
            assert(assoc_map(s0).remove(name@).insert(name@, val@) =~= assoc_map(s0).insert(
                name@,
                val@,
            ));
        }
        v.remove(i);
        v.insert(i, (name, val));
        proof {
            let mid = s0.remove(i as int);
            let t = mid.insert(i as int, (name, val));
            assert(v@ == t);
            if forall|j: int|
                0 <= j < s0.len() ==> (#[trigger] val_at(s0, j)).len() == val@.len() {
                assert forall|ii: int| 0 <= ii < v@.len() implies (#[trigger] val_at(
                    v@,
                    ii,
                )).len() == val@.len() by {
                    if ii < i {
                        assert(t[ii] == mid[ii] && mid[ii] == s0[ii]);
                        assert(val_at(t, ii) == val_at(s0, ii));
                    } else if ii > i {
                        assert(t[ii] == mid[ii - 1] && mid[ii - 1] == s0[ii]);
                        assert(val_at(t, ii) == val_at(s0, ii));
                    } else {
                        assert(val_at(t, ii) == val@);
                    }
                }
            }
        }
    } else {
        proof {
            if i < v@.len() {
                lemma_lex_lt_total(key_at(v@, i as int), name@);
            }
            lemma_assoc_insert(s0, i as int, (name, val));
        }
        v.insert(i, (name, val));
        proof {
            let t = s0.insert(i as int, (name, val));
            assert(v@ == t);
            if forall|j: int|
                0 <= j < s0.len() ==> (#[trigger] val_at(s0, j)).len() == val@.len() {
                assert forall|ii: int| 0 <= ii < v@.len() implies (#[trigger] val_at(
                    v@,
                    ii,
                )).len() == val@.len() by {
                    if ii < i {
                        assert(t[ii] == s0[ii]);
                        assert(val_at(t, ii) == val_at(s0, ii));
                    } else if ii > i {
                        assert(t[ii] == s0[ii - 1]);
                        assert(val_at(t, ii) == val_at(s0, ii - 1));
                    } else {
                        assert(val_at(t, ii) == val@);
                    }
                }
            }
        }
    }
}

/// Order of the names in a used-chords list.
pub open spec fn name_at(s: Seq<String>, i: int) -> Seq<char> {
    s[i]@
}

/// The used-chord names are strictly increasing, hence distinct.
pub open spec fn sorted_names(s: Seq<String>) -> bool {
    forall|i: int, j: int|
        0 <= i < j < s.len() ==> lex_lt(#[trigger] name_at(s, i), #[trigger] name_at(s, j))
}

/// Some entry of the list is the name `n`.
pub open spec fn names_has(s: Seq<String>, n: Seq<char>) -> bool {
    exists|i: int| 0 <= i < s.len() && #[trigger] name_at(s, i) == n
}

/// Insert a name into a sorted list of names unless it is already there.
fn name_insert(v: &mut Vec<String>, name: String)
    requires
        sorted_names(old(v)@),
    ensures
        sorted_names(final(v)@),
        forall|n: Seq<char>|
            #[trigger] names_has(final(v)@, n) <==> names_has(old(v)@, n) || n == name@,
{
    let ghost s0 = v@;
    let mut i: usize = 0;
    while i < v.len() && str_lt(v[i].as_str(), name.as_str())
        invariant
            i <= v@.len(),
            v@ == s0,
            sorted_names(v@),
            forall|j: int| 0 <= j < i ==> lex_lt(#[trigger] name_at(v@, j), name@),
        decreases v@.len() - i,
    {
        i += 1;
    }
    if i < v.len() && str_eq(v[i].as_str(), name.as_str()) {
        proof {
            assert(name_at(s0, i as int) == name@);
            assert(names_has(s0, name@));
            assert forall|n: Seq<char>| #[trigger]
                names_has(v@, n) <==> names_has(s0, n) || n == name@ by {}
        }
    } else {
        proof {
            if i < v@.len() {
                lemma_lex_lt_total(name_at(v@, i as int), name@);
                assert forall|j: int| i <= j < v@.len() implies lex_lt(
                    name@,
                    #[trigger] name_at(v@, j),
                ) by {
                    if j > i {
                        lemma_lex_lt_trans(name@, name_at(v@, i as int), name_at(v@, j));
                    }
                }
            }
        }
        v.insert(i, name);
        proof {
            let t = s0.insert(i as int, name);
            s0.insert_ensures(i as int, name);
            assert(v@ == t);
            assert forall|p: int, q: int| 0 <= p < q < t.len() implies lex_lt(
                #[trigger] name_at(t, p),
                #[trigger] name_at(t, q),
            ) by {
                if p == i {
                    assert(name_at(t, q) == name_at(s0, q - 1));
                } else if q == i {
                    assert(name_at(t, p) == name_at(s0, p));
                } else {
                    let p2 = if p < i {
                        p
                    } else {
                        p - 1
                    };
                    let q2 = if q < i {
                        q
                    } else {
                        q - 1
                    };
                    assert(name_at(t, p) == name_at(s0, p2));
                    assert(name_at(t, q) == name_at(s0, q2));
                    if p < i && q > i {
                        lemma_lex_lt_trans(name_at(s0, p2), name@, name_at(s0, q2));
                    }
                }
            }
            assert(name_at(t, i as int) == name@);
            assert forall|n: Seq<char>| #[trigger]
                names_has(t, n) <==> names_has(s0, n) || n == name@ by {
                if names_has(t, n) {
                    let j = choose|j: int| 0 <= j < t.len() && #[trigger] name_at(t, j) == n;
                    if j < i {
                        assert(name_at(s0, j) == n);
                    } else if j > i {
                        assert(name_at(s0, j - 1) == n);
                    }
                }
                if names_has(s0, n) {
                    let j = choose|j: int| 0 <= j < s0.len() && #[trigger] name_at(s0, j) == n;
                    if j < i {
                        assert(name_at(t, j) == n);
                    } else {
                        assert(name_at(t, j + 1) == n);
                    }
                }
            }
        }
    }
}

/// A chord name that stands for "no chord": it is never recorded for the
/// chord-box block.  Besides the fixed names, any name starting with `/`
/// (a bass run) or `x` is ignored.
pub open spec fn spec_excluded(name: Seq<char>) -> bool {
    ||| name.len() == 0
    ||| name == seq!['N', 'C']
    ||| name == seq!['N', '.', 'C', '.']
    ||| name == seq!['%']
    ||| name == seq!['-']
    ||| (name.len() > 0 && (name[0] == '/' || name[0] == 'x'))
}

/// The enharmonic rewrite tried once when a name is not in the table:
/// German `H` becomes `B`, and the four uncommon accidentals are spelled
/// as their table synonyms, keeping any suffix.
pub open spec fn spec_replacement(name: Seq<char>) -> Option<Seq<char>> {
    if name.len() >= 1 && name[0] == 'H' {
        Some(seq!['B'] + name.skip(1))
    } else if name.len() >= 2 {
        if name[0] == 'A' && name[1] == '#' {
            Some(seq!['B', 'b'] + name.skip(2))
        } else if name[0] == 'D' && name[1] == '#' {
            Some(seq!['E', 'b'] + name.skip(2))
        } else if name[0] == 'G' && name[1] == 'b' {
            Some(seq!['F', '#'] + name.skip(2))
        } else if name[0] == 'C' && name[1] == 'b' {
            Some(seq!['B'] + name.skip(2))
        } else {
            None
        }
    } else {
        None
    }
}

/// Placeholder fingering for an unknown chord: barre 0 and the unknown
/// sentinel on every string.
pub open spec fn unknown_fingering(strings: int) -> Seq<i8> {
    seq![0i8] + Seq::new(strings as nat, |i: int| -2i8)
}

/// Whether resolution finds a fingering for the name: in the local
/// overrides, in the table, or in the table under the enharmonic
/// rewrite.  Exactly otherwise the name resolves to the placeholder.
pub open spec fn spec_known(
    table: Map<Seq<char>, Seq<i8>>,
    local: Map<Seq<char>, Seq<i8>>,
    name: Seq<char>,
) -> bool {
    ||| local.contains_key(name)
    ||| table.contains_key(name)
    ||| match spec_replacement(name) {
        Some(repl) => table.contains_key(repl),
        None => false,
    }
}

/// Precedence of chord resolution: the local override wins, then the
/// built-in table, then the table under the enharmonic rewrite, and an
/// unknown name falls back to the placeholder.
pub open spec fn resolve_spec(
    table: Map<Seq<char>, Seq<i8>>,
    local: Map<Seq<char>, Seq<i8>>,
    strings: int,
    name: Seq<char>,
) -> Seq<i8> {
    if local.contains_key(name) {
        local[name]
    } else if table.contains_key(name) {
        table[name]
    } else {
        match spec_replacement(name) {
            Some(repl) => if table.contains_key(repl) {
                table[repl]
            } else {
                unknown_fingering(strings)
            },
            None => unknown_fingering(strings),
        }
    }
}

/// A locally defined fingering wins over anything the table holds.
pub proof fn lemma_local_override(
    table: Map<Seq<char>, Seq<i8>>,
    local: Map<Seq<char>, Seq<i8>>,
    strings: int,
    name: Seq<char>,
    f: Seq<i8>,
)
    ensures
        resolve_spec(table, local.insert(name, f), strings, name) == f,
{
}

/// A name bound by neither the local overrides nor the table, directly or
/// through its enharmonic rewrite, resolves to the placeholder.
pub proof fn lemma_unknown_placeholder(
    table: Map<Seq<char>, Seq<i8>>,
    local: Map<Seq<char>, Seq<i8>>,
    strings: int,
    name: Seq<char>,
)
    requires
        !local.contains_key(name),
        !table.contains_key(name),
        forall|r: Seq<char>| spec_replacement(name) == Some(r) ==> !table.contains_key(r),
    ensures
        resolve_spec(table, local, strings, name) == unknown_fingering(strings),
{
}

/// A name missing from the table still resolves through its enharmonic
/// rewrite when the table holds the rewritten name.
pub proof fn lemma_enharmonic_fallback(
    table: Map<Seq<char>, Seq<i8>>,
    local: Map<Seq<char>, Seq<i8>>,
    strings: int,
    name: Seq<char>,
    repl: Seq<char>,
)
    requires
        !local.contains_key(name),
        !table.contains_key(name),
        spec_replacement(name) == Some(repl),
        table.contains_key(repl),
    ensures
        resolve_spec(table, local, strings, name) == table[repl],
{
}

/// Copy a fingering.
fn copy_i8_vec(v: &Vec<i8>) -> (r: Vec<i8>)
    ensures
        r@ == v@,
{
    let mut r: Vec<i8> = Vec::new();
    let mut i: usize = 0;
    while i < v.len()
        invariant
            i <= v@.len(),
            r@ =~= v@.subrange(0, i as int),
        decreases v@.len() - i,
    {
        r.push(v[i]);
        i += 1;
    }
    proof {
        assert(r@ =~= v@);
    }
    r
}

/// Per-song collector of the chord names a song uses, and their resolver.
pub struct ChordHolder {
    known_chords: Vec<(String, Vec<i8>)>,
    local: Vec<(String, Vec<i8>)>,
    used: Vec<String>,
    instrument: Instrument,
}

impl ChordHolder {
    /// The built-in chord table, as a map from name to fingering.
    pub closed spec fn table_map(&self) -> Map<Seq<char>, Seq<i8>> {
        assoc_map(self.known_chords@)
    }

    /// The built-in table's entries, sorted by name.
    pub closed spec fn table_entries(&self) -> Seq<(Seq<char>, Seq<i8>)> {
        Seq::new(
            self.known_chords@.len(),
            |i: int| (key_at(self.known_chords@, i), val_at(self.known_chords@, i)),
        )
    }

    /// The local `define` overrides of the current song.
    pub closed spec fn local_map(&self) -> Map<Seq<char>, Seq<i8>> {
        assoc_map(self.local@)
    }

    /// The distinct recorded chord names, sorted.
    pub closed spec fn used_names(&self) -> Seq<Seq<char>> {
        Seq::new(self.used@.len(), |i: int| self.used@[i]@)
    }

    /// Whether a name has been recorded by [`Self::use_chord`].
    pub closed spec fn uses(&self, n: Seq<char>) -> bool {
        names_has(self.used@, n)
    }

    /// Number of strings of the holder's instrument.
    pub closed spec fn strings(&self) -> int {
        spec_strings(self.instrument)
    }

    /// Tables and the used list are sorted, and every stored fingering
    /// has one entry per string plus the barre slot.
    pub closed spec fn wf(&self) -> bool {
        &&& sorted_keys(self.known_chords@)
        &&& sorted_keys(self.local@)
        &&& sorted_names(self.used@)
        &&& all_arity(self.known_chords@, self.strings() + 1)
        &&& all_arity(self.local@, self.strings() + 1)
    }

    /// A name is recorded exactly when it occurs among the used names.
    pub proof fn lemma_uses_names(&self)
        ensures
            forall|n: Seq<char>| #[trigger] self.uses(n) <==> self.used_names().contains(n),
    {
        assert forall|n: Seq<char>| #[trigger]
            self.uses(n) <==> self.used_names().contains(n) by {
            if self.uses(n) {
                let i = choose|i: int|
                    0 <= i < self.used@.len() && #[trigger] name_at(self.used@, i) == n;
                assert(self.used_names()[i] == n);
            }
            if self.used_names().contains(n) {
                let i = choose|i: int|
                    0 <= i < self.used_names().len() && #[trigger] self.used_names()[i] == n;
                assert(name_at(self.used@, i) == n);
            }
        }
    }

    /// The used names come out in strictly increasing order.
    pub proof fn lemma_used_names_sorted(&self)
        requires
            self.wf(),
        ensures
            forall|i: int, j: int|
                0 <= i < j < self.used_names().len() ==> lex_lt(
                    #[trigger] self.used_names()[i],
                    #[trigger] self.used_names()[j],
                ),
    {
        assert forall|i: int, j: int| 0 <= i < j < self.used_names().len() implies lex_lt(
            #[trigger] self.used_names()[i],
            #[trigger] self.used_names()[j],
        ) by {
            assert(self.used_names()[i] == name_at(self.used@, i));
            assert(self.used_names()[j] == name_at(self.used@, j));
        }
    }

    /// The table entries mirror the table map: they are sorted by name
    /// and distinct, every fingering has one slot per string plus the
    /// barre slot, and the map holds exactly the entries' bindings.
    pub proof fn lemma_table_wf(&self)
        requires
            self.wf(),
        ensures
            forall|i: int, j: int|
                0 <= i < j < self.table_entries().len() ==> lex_lt(
                    #[trigger] self.table_entries()[i].0,
                    #[trigger] self.table_entries()[j].0,
                ) && self.table_entries()[i].0 != self.table_entries()[j].0,
            forall|i: int|
                0 <= i < self.table_entries().len() ==> (#[trigger] self.table_entries()[i]).1.len()
                    == self.strings() + 1,
            forall|i: int|
                0 <= i < self.table_entries().len() ==> self.table_map().contains_pair(
                    (#[trigger] self.table_entries()[i]).0,
                    self.table_entries()[i].1,
                ),
            forall|n: Seq<char>|
                #[trigger] self.table_map().contains_key(n) ==> exists|i: int|
                    0 <= i < self.table_entries().len() && (#[trigger] self.table_entries()[i]).0
                        == n,
    {
        let s = self.known_chords@;
        assert forall|i: int, j: int| 0 <= i < j < self.table_entries().len() implies lex_lt(
            #[trigger] self.table_entries()[i].0,
            #[trigger] self.table_entries()[j].0,
        ) && self.table_entries()[i].0 != self.table_entries()[j].0 by {
            assert(self.table_entries()[i].0 == key_at(s, i));
            assert(self.table_entries()[j].0 == key_at(s, j));
            lemma_lex_lt_total(key_at(s, i), key_at(s, j));
        }
        assert forall|i: int| 0 <= i < self.table_entries().len() implies (
        #[trigger] self.table_entries()[i]).1.len() == self.strings() + 1 by {
            assert(self.table_entries()[i].1 == val_at(s, i));
        }
        assert forall|i: int| 0 <= i < self.table_entries().len() implies self.table_map(
        ).contains_pair((#[trigger] self.table_entries()[i]).0, self.table_entries()[i].1) by {
            lemma_assoc_at(s, i);
        }
        assert forall|n: Seq<char>| #[trigger] self.table_map().contains_key(n) implies exists|
            i: int,
        |
            0 <= i < self.table_entries().len() && (#[trigger] self.table_entries()[i]).0
                == n by {
            let i = choose|i: int| 0 <= i < s.len() && #[trigger] key_at(s, i) == n;
            assert(self.table_entries()[i].0 == n);
        }
    }

    /// Fresh resolver for one song: the built-in table of the chosen
    /// instrument, no local overrides, no used chords.
    pub fn new_for(instrument: Instrument) -> (r: ChordHolder)
        ensures
            r.wf(),
            r.strings() == spec_strings(instrument),
            r.used_names() == Seq::<Seq<char>>::empty(),
            r.local_map() == Map::<Seq<char>, Seq<i8>>::empty(),
            forall|n: Seq<char>| !r.uses(n),
            r.table_map() == if instrument is Guitar {
                guitar_table()
            } else {
                mandolin_table()
            },
    {
        let known = match instrument {
            Instrument::Guitar => guitar_chords(),
            Instrument::Mandolin => mandolin_chords(),
        };
        let r = ChordHolder { known_chords: known, local: Vec::new(), used: Vec::new(), instrument };
        proof {
            assert(r.used_names() =~= Seq::<Seq<char>>::empty());
            assert(r.local_map() =~= Map::<Seq<char>, Seq<i8>>::empty());
        }
        r
    }

    /// Record that a chord name occurred in a lyric line, unless the name
    /// stands for "no chord" (see [`spec_excluded`]).
    pub fn use_chord(&mut self, chord: &str)
        requires
            old(self).wf(),
        ensures
            final(self).wf(),
            final(self).strings() == old(self).strings(),
            final(self).table_map() == old(self).table_map(),
            final(self).table_entries() == old(self).table_entries(),
            final(self).local_map() == old(self).local_map(),
            spec_excluded(chord@) ==> final(self).used_names() == old(self).used_names(),
            !spec_excluded(chord@) ==> (forall|n: Seq<char>|
                #[trigger] final(self).uses(n) <==> old(self).uses(n) || n == chord@),
    {
        let excl = if chord.is_empty() {
            true
        } else {
            let c0 = chord.get_char(0);
            c0 == '/' || c0 == 'x' || str_eq(chord, "NC") || str_eq(chord, "N.C.") || str_eq(
                chord,
                "%",
            ) || str_eq(chord, "-")
        };
        proof {
            reveal_strlit("NC");
            reveal_strlit("N.C.");
            reveal_strlit("%");
            reveal_strlit("-");
            assert("NC"@ =~= seq!['N', 'C']);
            assert("N.C."@ =~= seq!['N', '.', 'C', '.']);
            assert("%"@ =~= seq!['%']);
            assert("-"@ =~= seq!['-']);
            assert(excl == spec_excluded(chord@));
        }
        if !excl {
            name_insert(&mut self.used, String::from_str(chord));
        }
    }

    /// Install a local fingering for a name, overriding earlier ones.
    /// A fingering of the wrong arity for the instrument is ignored, and
    /// the call reports whether the fingering was installed so that the
    /// caller can warn about a dropped definition.
    pub fn define(&mut self, chord: String, def: Vec<i8>) -> (installed: bool)
        requires
            old(self).wf(),
        ensures
            installed == (def@.len() == old(self).strings() + 1),
            final(self).wf(),
            final(self).strings() == old(self).strings(),
            final(self).table_map() == old(self).table_map(),
            final(self).table_entries() == old(self).table_entries(),
            final(self).used_names() == old(self).used_names(),
            def@.len() == old(self).strings() + 1 ==> final(self).local_map() == old(
                self,
            ).local_map().insert(chord@, def@),
            def@.len() != old(self).strings() + 1 ==> final(self).local_map() == old(
                self,
            ).local_map(),
    {
        let expected: usize = match self.instrument {
            Instrument::Guitar => 7,
            Instrument::Mandolin => 5,
        };
        if def.len() == expected {
            assoc_insert(&mut self.local, chord, def);
            true
        } else {
            // A definition of the wrong arity cannot be drawn for this
            // instrument; it is dropped and the caller told so.
            false
        }
    }

    /// The enharmonic rewrite of a chord name, if it has one.
    pub fn replacement(name: &str) -> (r: Option<String>)
        ensures
            match r {
                Some(t) => spec_replacement(name@) == Some(t@),
                None => spec_replacement(name@) is None,
            },
    {
        if !name.is_empty() && name.get_char(0) == 'H' {
            let len = name.unicode_len();
            let suffix = name.substring_char(1, len);
            let r = String::from_str("B").concat(suffix);
            proof {
                reveal_strlit("B");
                assert("B"@ =~= seq!['B']);
                assert(suffix@ =~= name@.skip(1));
            }
            Some(r)
        } else if name.unicode_len() >= 2 {
            let c0 = name.get_char(0);
            let c1 = name.get_char(1);
            let len = name.unicode_len();
            let suffix = name.substring_char(2, len);
            proof {
                assert(suffix@ =~= name@.skip(2));
            }
            if c0 == 'A' && c1 == '#' {
                let r = String::from_str("Bb").concat(suffix);
                proof {
                    reveal_strlit("Bb");
                    assert("Bb"@ =~= seq!['B', 'b']);
                }
                Some(r)
            } else if c0 == 'D' && c1 == '#' {
                let r = String::from_str("Eb").concat(suffix);
                proof {
                    reveal_strlit("Eb");
                    assert("Eb"@ =~= seq!['E', 'b']);
                }
                Some(r)
            } else if c0 == 'G' && c1 == 'b' {
                let r = String::from_str("F#").concat(suffix);
                proof {
                    reveal_strlit("F#");
                    assert("F#"@ =~= seq!['F', '#']);
                }
                Some(r)
            } else if c0 == 'C' && c1 == 'b' {
                let r = String::from_str("B").concat(suffix);
                proof {
                    reveal_strlit("B");
                    assert("B"@ =~= seq!['B']);
                }
                Some(r)
            } else {
                None
            }
        } else {
            None
        }
    }

    /// Whether resolution would find a fingering for the name: a local
    /// override, a table entry, or a table entry under the enharmonic
    /// rewrite.  A name that is not known resolves to the placeholder,
    /// which the caller may want to warn about.
    pub fn is_known(&self, name: &str) -> (r: bool)
        requires
            self.wf(),
        ensures
            r == spec_known(self.table_map(), self.local_map(), name@),
    {
        if let Some(_i) = assoc_find(&self.local, name) {
            return true;
        }
        if let Some(_i) = assoc_find(&self.known_chords, name) {
            return true;
        }
        match Self::replacement(name) {
            Some(repl) => assoc_find(&self.known_chords, repl.as_str()).is_some(),
            None => false,
        }
    }

    /// The placeholder fingering for the holder's instrument.
    fn unknown_vec(&self) -> (r: Vec<i8>)
        ensures
            r@ == unknown_fingering(self.strings()),
    {
        let n: usize = match self.instrument {
            Instrument::Guitar => 6,
            Instrument::Mandolin => 4,
        };
        let mut r: Vec<i8> = Vec::new();
        r.push(0);
        let mut i: usize = 0;
        while i < n
            invariant
                i <= n,
                r@.len() == i + 1,
                r@[0] == 0i8,
                forall|j: int| 1 <= j <= i ==> r@[j] == -2i8,
            decreases n - i,
        {
            r.push(-2);
            i += 1;
        }
        proof {
            assert(r@ =~= unknown_fingering(n as int));
        }
        r
    }

    /// Resolve one name by the precedence of [`resolve_spec`].
    fn resolve_one(&self, name: &str) -> (r: Vec<i8>)
        requires
            self.wf(),
        ensures
            r@ == resolve_spec(self.table_map(), self.local_map(), self.strings(), name@),
    {
        if let Some(i) = assoc_find(&self.local, name) {
            proof {
                lemma_assoc_at(self.local@, i as int);
            }
            return copy_i8_vec(&self.local[i].1);
        }
        if let Some(i) = assoc_find(&self.known_chords, name) {
            proof {
                lemma_assoc_at(self.known_chords@, i as int);
            }
            return copy_i8_vec(&self.known_chords[i].1);
        }
        match Self::replacement(name) {
            Some(repl) => {
                if let Some(i) = assoc_find(&self.known_chords, repl.as_str()) {
                    proof {
                        lemma_assoc_at(self.known_chords@, i as int);
                    }
                    copy_i8_vec(&self.known_chords[i].1)
                } else {
                    self.unknown_vec()
                }
            },
            None => self.unknown_vec(),
        }
    }

    /// The used chord names in sorted order, each resolved to its
    /// fingering.  Returns owned copies of the names and fingerings.
    pub fn get_used(&self) -> (r: Vec<(String, Vec<i8>)>)
        requires
            self.wf(),
        ensures
            r@.len() == self.used_names().len(),
            forall|i: int|
                0 <= i < r@.len() ==> (#[trigger] r@[i]).0@ == self.used_names()[i] && r@[i].1@
                    == resolve_spec(
                    self.table_map(),
                    self.local_map(),
                    self.strings(),
                    self.used_names()[i],
                ),
    {
        let mut r: Vec<(String, Vec<i8>)> = Vec::new();
        let mut i: usize = 0;
        while i < self.used.len()
            invariant
                self.wf(),
                i <= self.used@.len(),
                r@.len() == i,
                forall|j: int|
                    0 <= j < i ==> (#[trigger] r@[j]).0@ == self.used_names()[j] && r@[j].1@
                        == resolve_spec(
                        self.table_map(),
                        self.local_map(),
                        self.strings(),
                        self.used_names()[j],
                    ),
            decreases self.used@.len() - i,
        {
            let fing = self.resolve_one(self.used[i].as_str());
            let nm = self.used[i].clone();
            r.push((nm, fing));
            i += 1;
        }
        r
    }

    /// The whole built-in table in sorted order, as owned copies, for a
    /// reference page.
    pub fn get_all_chords(&self) -> (r: Vec<(String, Vec<i8>)>)
        requires
            self.wf(),
        ensures
            r@.len() == self.table_entries().len(),
            forall|i: int|
                0 <= i < r@.len() ==> (#[trigger] r@[i]).0@ == self.table_entries()[i].0 && r@[i].1@
                    == self.table_entries()[i].1,
    {
        let mut r: Vec<(String, Vec<i8>)> = Vec::new();
        let mut i: usize = 0;
        while i < self.known_chords.len()
            invariant
                i <= self.known_chords@.len(),
                r@.len() == i,
                forall|j: int|
                    0 <= j < i ==> (#[trigger] r@[j]).0@ == self.table_entries()[j].0 && r@[j].1@
                        == self.table_entries()[j].1,
            decreases self.known_chords@.len() - i,
        {
            let nm = self.known_chords[i].0.clone();
            let fing = copy_i8_vec(&self.known_chords[i].1);
            r.push((nm, fing));
            i += 1;
        }
        r
    }
}

} // verus!
