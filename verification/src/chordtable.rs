//! The built-in chord tables, one per instrument.
//!
//! Each table is built as a sorted association list from chord name to
//! fingering.  A name inserted twice keeps its last fingering, matching
//! the "last inserted wins" rule of the resolver.

use vstd::prelude::*;

use crate::chords::{all_arity, assoc_insert, assoc_map, sorted_keys, val_at};

verus! {

/// The built-in guitar table as a map: the first ninety bindings (see
/// [`guitar_table_c`]) followed by the rest, in build order, so a name
/// bound twice keeps its later fingering.
pub open spec fn guitar_table() -> Map<Seq<char>, Seq<i8>> {
    guitar_table_c()
        .insert("F#"@, seq![2i8, 1, 3, 3, 2, 1, 1])
        .insert("F#7"@, seq![2i8, 1, 3, 1, 2, 1, 1])
        .insert("F#dim"@, seq![0i8, -1i8, -1i8, 4, 2, 1, 2])
        .insert("F#dim*"@, seq![0i8, 2, 3, 4, 2, -1i8, -1i8])
        .insert("F#m"@, seq![2i8, 1, 3, 3, 1, 1, 1])
        .insert("F#m7"@, seq![2i8, 1, 3, 1, 1, 1, 1])
        .insert("G"@, seq![0i8, 3, 2, 0, 0, 0, 3])
        .insert("G+"@, seq![0i8, 3, 2, 1, 0, 0, 3])
        .insert("G/A"@, seq![0i8, -1i8, 0, 0, 0, 0, 3])
        .insert("G/B"@, seq![0i8, -1i8, 2, 0, 0, 3, 3])
        .insert("G/C"@, seq![0i8, -1i8, 3, 0, 0, 0, 3])
        .insert("G/F"@, seq![0i8, 1, 2, 0, 0, 3, 3])
        .insert("G/F#"@, seq![0i8, 2, 2, 0, 0, 0, 3])
        .insert("G6"@, seq![0i8, 3, 2, 0, 0, 0, 0])
        .insert("G7"@, seq![0i8, 3, 2, 0, 0, 0, 1])
        .insert("G7/D"@, seq![0i8, -1i8, -1i8, 0, 0, 0, 1])
        .insert("Gm"@, seq![3i8, 1, 3, 3, 1, 1, 1])
        .insert("Gm6"@, seq![0i8, 3, 1, 0, 0, 3, 0])
        .insert("Gm7"@, seq![3i8, 1, 3, 1, 1, 1, 1])
        .insert("Gmaj7"@, seq![0i8, 3, 2, 0, 0, 0, 2])
        .insert("Gsus4"@, seq![0i8, 3, 3, 0, 0, 3, 3])
        .insert("G#"@, seq![4i8, 1, 3, 3, 2, 1, 1])
        .insert("G#7"@, seq![4i8, 1, 3, 1, 2, 1, 1])
        .insert("G#dim"@, seq![4i8, 1, 2, 3, 1, -1i8, -1i8])
        .insert("G#m"@, seq![4i8, 1, 3, 3, 1, 1, 1])
        .insert("G#m7"@, seq![4i8, 1, 3, 1, 1, 1, 1])
}

/// The built-in mandolin table as a map.
pub open spec fn mandolin_table() -> Map<Seq<char>, Seq<i8>> {
    Map::empty()
        .insert("Ab"@, seq![0i8, 1, 1, 3, 4])
        .insert("A"@, seq![0i8, 9, 7, 4, 5])
        .insert("A7"@, seq![0i8, 6, 5, 7, 5])
        .insert("Am"@, seq![0i8, 9, 7, 3, 5])
        .insert("Am7"@, seq![0i8, 0, 2, 3, 0])
        .insert("Bb"@, seq![0i8, 3, 3, 5, 7])
        .insert("B"@, seq![0i8, 4, 4, 6, 7])
        .insert("B7"@, seq![0i8, 2, 1, 2, -1i8])
        .insert("Bm"@, seq![0i8, 4, 4, 5, 7])
        .insert("Bm7"@, seq![0i8, 4, 4, 5, 5])
        .insert("C"@, seq![0i8, 5, 2, 3, 0])
        .insert("C7"@, seq![0i8, 3, 2, 3, -1i8])
        .insert("Cm"@, seq![0i8, 5, 1, 3, -1i8])
        .insert("Cm7"@, seq![0i8, 3, 1, 3, -1i8])
        .insert("Cmaj7"@, seq![0i8, 5, 2, 2, 3])
        .insert("C/G"@, seq![0i8, 0, 2, 3, 0])
        .insert("C#"@, seq![0i8, 6, 3, 4, 1])
        .insert("C#7"@, seq![0i8, 4, 3, 4, -1i8])
        .insert("C#m"@, seq![0i8, 6, 2, 4, -1i8])
        .insert("D"@, seq![0i8, 2, 0, 0, 2])
        .insert("D7"@, seq![0i8, 5, 4, 5, -1i8])
        .insert("Dm"@, seq![0i8, 7, 3, 5, -1i8])
        .insert("Dm7"@, seq![0i8, 5, 3, 5, -1i8])
        .insert("Eb"@, seq![0i8, 8, 5, 6, 3])
        .insert("Eb7"@, seq![0i8, 3, 1, 4, 3])
        .insert("E"@, seq![0i8, 4, 6, 7, -1i8])
        .insert("E7"@, seq![0i8, 7, 6, 7, -1i8])
        .insert("Em"@, seq![0i8, 4, 2, 2, 3])
        .insert("Em7"@, seq![0i8, 4, 2, 5, 3])
        .insert("F"@, seq![0i8, 5, 3, 0, 1])
        .insert("F7"@, seq![0i8, 5, 3, 6, 5])
        .insert("Fm"@, seq![0i8, 5, 3, 3, 4])
        .insert("Fmaj7"@, seq![0i8, 5, 3, 7, 5])
        .insert("F#"@, seq![0i8, 6, 4, 1, 2])
        .insert("F#7"@, seq![0i8, 6, 4, 7, 6])
        .insert("F#m"@, seq![0i8, 6, 4, 4, 5])
        .insert("F#m7"@, seq![0i8, 6, 4, 7, 5])
        .insert("G"@, seq![0i8, 0, 0, 2, 3])
        .insert("G7"@, seq![0i8, 5, 4, 6, 4])
        .insert("Gm"@, seq![0i8, 0, 0, 1, 3])
        .insert("Gm7"@, seq![0i8, 7, 5, 8, 6])
        .insert("G#"@, seq![0i8, 8, 6, 3, 4])
}

/// The first 30 bindings of the built-in guitar table.
pub open spec fn guitar_table_a() -> Map<Seq<char>, Seq<i8>> {
    Map::empty()
        .insert("Ab"@, seq![4i8, 1, 3, 3, 2, 1, 1])
        .insert("Ab6"@, seq![1i8, 4, 3, 1, 1, 1, 1])
        .insert("Ab7"@, seq![4i8, 1, 3, 1, 2, 1, 1])
        .insert("Abm"@, seq![4i8, 1, 3, 3, 1, 1, 1])
        .insert("Abm7"@, seq![4i8, 1, 3, 1, 1, 1, 1])
        .insert("Abmaj7"@, seq![4i8, 1, 3, 2, 2, 1, 1])
        .insert("A"@, seq![0i8, -1i8, 0, 2, 2, 2, 0])
        .insert("A/E"@, seq![0i8, 0, 0, 2, 2, 2, 0])
        .insert("A6"@, seq![1i8, -1i8, 0, 2, 2, 2, 2])
        .insert("A7"@, seq![0i8, -1i8, 0, 2, 0, 2, 0])
        .insert("A7/C#"@, seq![4i8, -1i8, 1, 2, 3, 2, 2])
        .insert("A9"@, seq![4i8, 2, 1, 2, 1, 2, -1i8])
        .insert("Am"@, seq![0i8, -1i8, 0, 2, 2, 1, 0])
        .insert("Am/C"@, seq![1i8, -1i8, 3, 2, 2, 1, 0])
        .insert("Am/E"@, seq![1i8, 0, 0, 2, 2, 1, 0])
        .insert("Am/F#"@, seq![1i8, 2, 0, 2, 2, 1, 0])
        .insert("Am/G"@, seq![1i8, 3, 0, 2, 2, 1, 0])
        .insert("Am6"@, seq![1i8, -1i8, 0, 2, 2, 1, 2])
        .insert("Am7"@, seq![1i8, -1i8, 0, 2, 0, 1, 0])
        .insert("Am7/G"@, seq![1i8, 3, 0, 2, 0, 1, 0])
        .insert("Am9"@, seq![5i8, 1, 3, 1, 1, 1, 3])
        .insert("Amaj7"@, seq![1i8, -1i8, 0, 2, 1, 2, 0])
        .insert("Asus"@, seq![1i8, -1i8, 0, 2, 2, 3, 0])
        .insert("Asus2"@, seq![1i8, -1i8, 0, 2, 2, 0, 0])
        .insert("Asus4"@, seq![1i8, -1i8, 0, 0, 2, 3, 0])
        .insert("Bb"@, seq![1i8, -1i8, 1, 3, 3, 3, 1])
        .insert("Bbm"@, seq![1i8, -1i8, 1, 3, 3, 2, 1])
        .insert("Bb7"@, seq![1i8, -1i8, 1, 3, 1, 3, 1])
        .insert("Bbm7"@, seq![1i8, -1i8, 1, 3, 1, 2, 1])
        .insert("Bb9'"@, seq![1i8, -1i8, 1, 0, 1, 1, 1])
}

/// A name among the first 30 guitar bindings.
pub open spec fn guitar_name_a(n: Seq<char>) -> bool {
    ||| n == "Ab"@
    ||| n == "Ab6"@
    ||| n == "Ab7"@
    ||| n == "Abm"@
    ||| n == "Abm7"@
    ||| n == "Abmaj7"@
    ||| n == "A"@
    ||| n == "A/E"@
    ||| n == "A6"@
    ||| n == "A7"@
    ||| n == "A7/C#"@
    ||| n == "A9"@
    ||| n == "Am"@
    ||| n == "Am/C"@
    ||| n == "Am/E"@
    ||| n == "Am/F#"@
    ||| n == "Am/G"@
    ||| n == "Am6"@
    ||| n == "Am7"@
    ||| n == "Am7/G"@
    ||| n == "Am9"@
    ||| n == "Amaj7"@
    ||| n == "Asus"@
    ||| n == "Asus2"@
    ||| n == "Asus4"@
    ||| n == "Bb"@
    ||| n == "Bbm"@
    ||| n == "Bb7"@
    ||| n == "Bbm7"@
    ||| n == "Bb9'"@
}

/// The stored fingering among the first 30 guitar bindings.
pub open spec fn guitar_fingering_a(n: Seq<char>) -> Seq<i8> {
    if n == "Bb9'"@ {
        seq![1i8, -1i8, 1, 0, 1, 1, 1]
    } else if n == "Bbm7"@ {
        seq![1i8, -1i8, 1, 3, 1, 2, 1]
    } else if n == "Bb7"@ {
        seq![1i8, -1i8, 1, 3, 1, 3, 1]
    } else if n == "Bbm"@ {
        seq![1i8, -1i8, 1, 3, 3, 2, 1]
    } else if n == "Bb"@ {
        seq![1i8, -1i8, 1, 3, 3, 3, 1]
    } else if n == "Asus4"@ {
        seq![1i8, -1i8, 0, 0, 2, 3, 0]
    } else if n == "Asus2"@ {
        seq![1i8, -1i8, 0, 2, 2, 0, 0]
    } else if n == "Asus"@ {
        seq![1i8, -1i8, 0, 2, 2, 3, 0]
    } else if n == "Amaj7"@ {
        seq![1i8, -1i8, 0, 2, 1, 2, 0]
    } else if n == "Am9"@ {
        seq![5i8, 1, 3, 1, 1, 1, 3]
    } else if n == "Am7/G"@ {
        seq![1i8, 3, 0, 2, 0, 1, 0]
    } else if n == "Am7"@ {
        seq![1i8, -1i8, 0, 2, 0, 1, 0]
    } else if n == "Am6"@ {
        seq![1i8, -1i8, 0, 2, 2, 1, 2]
    } else if n == "Am/G"@ {
        seq![1i8, 3, 0, 2, 2, 1, 0]
    } else if n == "Am/F#"@ {
        seq![1i8, 2, 0, 2, 2, 1, 0]
    } else if n == "Am/E"@ {
        seq![1i8, 0, 0, 2, 2, 1, 0]
    } else if n == "Am/C"@ {
        seq![1i8, -1i8, 3, 2, 2, 1, 0]
    } else if n == "Am"@ {
        seq![0i8, -1i8, 0, 2, 2, 1, 0]
    } else if n == "A9"@ {
        seq![4i8, 2, 1, 2, 1, 2, -1i8]
    } else if n == "A7/C#"@ {
        seq![4i8, -1i8, 1, 2, 3, 2, 2]
    } else if n == "A7"@ {
        seq![0i8, -1i8, 0, 2, 0, 2, 0]
    } else if n == "A6"@ {
        seq![1i8, -1i8, 0, 2, 2, 2, 2]
    } else if n == "A/E"@ {
        seq![0i8, 0, 0, 2, 2, 2, 0]
    } else if n == "A"@ {
        seq![0i8, -1i8, 0, 2, 2, 2, 0]
    } else if n == "Abmaj7"@ {
        seq![4i8, 1, 3, 2, 2, 1, 1]
    } else if n == "Abm7"@ {
        seq![4i8, 1, 3, 1, 1, 1, 1]
    } else if n == "Abm"@ {
        seq![4i8, 1, 3, 3, 1, 1, 1]
    } else if n == "Ab7"@ {
        seq![4i8, 1, 3, 1, 2, 1, 1]
    } else if n == "Ab6"@ {
        seq![1i8, 4, 3, 1, 1, 1, 1]
    } else if n == "Ab"@ {
        seq![4i8, 1, 3, 3, 2, 1, 1]
    } else {
        Seq::empty()
    }
}

/// Flat form of the first 30 guitar bindings.
#[verifier::rlimit(100)]
#[verifier::spinoff_prover]
proof fn lemma_guitar_flat_a()
    ensures
        forall|n: Seq<char>| #[trigger] guitar_table_a().contains_key(n) <==> guitar_name_a(n),
        forall|n: Seq<char>| #[trigger] guitar_name_a(n) ==> guitar_table_a()[n] == guitar_fingering_a(n),
{
    let m0 = Map::empty();
    let m1 = m0.insert("Ab"@, seq![4i8, 1, 3, 3, 2, 1, 1]);
    let m2 = m1.insert("Ab6"@, seq![1i8, 4, 3, 1, 1, 1, 1]);
    let m3 = m2.insert("Ab7"@, seq![4i8, 1, 3, 1, 2, 1, 1]);
    let m4 = m3.insert("Abm"@, seq![4i8, 1, 3, 3, 1, 1, 1]);
    let m5 = m4.insert("Abm7"@, seq![4i8, 1, 3, 1, 1, 1, 1]);
    let m6 = m5.insert("Abmaj7"@, seq![4i8, 1, 3, 2, 2, 1, 1]);
    let m7 = m6.insert("A"@, seq![0i8, -1i8, 0, 2, 2, 2, 0]);
    let m8 = m7.insert("A/E"@, seq![0i8, 0, 0, 2, 2, 2, 0]);
    let m9 = m8.insert("A6"@, seq![1i8, -1i8, 0, 2, 2, 2, 2]);
    let m10 = m9.insert("A7"@, seq![0i8, -1i8, 0, 2, 0, 2, 0]);
    let m11 = m10.insert("A7/C#"@, seq![4i8, -1i8, 1, 2, 3, 2, 2]);
    let m12 = m11.insert("A9"@, seq![4i8, 2, 1, 2, 1, 2, -1i8]);
    let m13 = m12.insert("Am"@, seq![0i8, -1i8, 0, 2, 2, 1, 0]);
    let m14 = m13.insert("Am/C"@, seq![1i8, -1i8, 3, 2, 2, 1, 0]);
    let m15 = m14.insert("Am/E"@, seq![1i8, 0, 0, 2, 2, 1, 0]);
    let m16 = m15.insert("Am/F#"@, seq![1i8, 2, 0, 2, 2, 1, 0]);
    let m17 = m16.insert("Am/G"@, seq![1i8, 3, 0, 2, 2, 1, 0]);
    let m18 = m17.insert("Am6"@, seq![1i8, -1i8, 0, 2, 2, 1, 2]);
    let m19 = m18.insert("Am7"@, seq![1i8, -1i8, 0, 2, 0, 1, 0]);
    let m20 = m19.insert("Am7/G"@, seq![1i8, 3, 0, 2, 0, 1, 0]);
    let m21 = m20.insert("Am9"@, seq![5i8, 1, 3, 1, 1, 1, 3]);
    let m22 = m21.insert("Amaj7"@, seq![1i8, -1i8, 0, 2, 1, 2, 0]);
    let m23 = m22.insert("Asus"@, seq![1i8, -1i8, 0, 2, 2, 3, 0]);
    let m24 = m23.insert("Asus2"@, seq![1i8, -1i8, 0, 2, 2, 0, 0]);
    let m25 = m24.insert("Asus4"@, seq![1i8, -1i8, 0, 0, 2, 3, 0]);
    let m26 = m25.insert("Bb"@, seq![1i8, -1i8, 1, 3, 3, 3, 1]);
    let m27 = m26.insert("Bbm"@, seq![1i8, -1i8, 1, 3, 3, 2, 1]);
    let m28 = m27.insert("Bb7"@, seq![1i8, -1i8, 1, 3, 1, 3, 1]);
    let m29 = m28.insert("Bbm7"@, seq![1i8, -1i8, 1, 3, 1, 2, 1]);
    let m30 = m29.insert("Bb9'"@, seq![1i8, -1i8, 1, 0, 1, 1, 1]);
    assert(guitar_table_a() == m30);
    assert forall|n: Seq<char>|
        (#[trigger] guitar_table_a().contains_key(n) <==> guitar_name_a(n)) && ((
        #[trigger] guitar_name_a(n)) ==> guitar_table_a()[n] == guitar_fingering_a(n)) by {
        assert(!m0.contains_key(n));
        assert(m1.contains_key(n) <==> n == "Ab"@ || m0.contains_key(n));
        assert(n == "Ab"@ ==> m1[n] == seq![4i8, 1, 3, 3, 2, 1, 1]);
        assert(n != "Ab"@ ==> m1[n] == m0[n]);
        assert(m2.contains_key(n) <==> n == "Ab6"@ || m1.contains_key(n));
        assert(n == "Ab6"@ ==> m2[n] == seq![1i8, 4, 3, 1, 1, 1, 1]);
        assert(n != "Ab6"@ ==> m2[n] == m1[n]);
        assert(m3.contains_key(n) <==> n == "Ab7"@ || m2.contains_key(n));
        assert(n == "Ab7"@ ==> m3[n] == seq![4i8, 1, 3, 1, 2, 1, 1]);
        assert(n != "Ab7"@ ==> m3[n] == m2[n]);
        assert(m4.contains_key(n) <==> n == "Abm"@ || m3.contains_key(n));
        assert(n == "Abm"@ ==> m4[n] == seq![4i8, 1, 3, 3, 1, 1, 1]);
        assert(n != "Abm"@ ==> m4[n] == m3[n]);
        assert(m5.contains_key(n) <==> n == "Abm7"@ || m4.contains_key(n));
        assert(n == "Abm7"@ ==> m5[n] == seq![4i8, 1, 3, 1, 1, 1, 1]);
        assert(n != "Abm7"@ ==> m5[n] == m4[n]);
        assert(m6.contains_key(n) <==> n == "Abmaj7"@ || m5.contains_key(n));
        assert(n == "Abmaj7"@ ==> m6[n] == seq![4i8, 1, 3, 2, 2, 1, 1]);
        assert(n != "Abmaj7"@ ==> m6[n] == m5[n]);
        assert(m7.contains_key(n) <==> n == "A"@ || m6.contains_key(n));
        assert(n == "A"@ ==> m7[n] == seq![0i8, -1i8, 0, 2, 2, 2, 0]);
        assert(n != "A"@ ==> m7[n] == m6[n]);
        assert(m8.contains_key(n) <==> n == "A/E"@ || m7.contains_key(n));
        assert(n == "A/E"@ ==> m8[n] == seq![0i8, 0, 0, 2, 2, 2, 0]);
        assert(n != "A/E"@ ==> m8[n] == m7[n]);
        assert(m9.contains_key(n) <==> n == "A6"@ || m8.contains_key(n));
        assert(n == "A6"@ ==> m9[n] == seq![1i8, -1i8, 0, 2, 2, 2, 2]);
        assert(n != "A6"@ ==> m9[n] == m8[n]);
        assert(m10.contains_key(n) <==> n == "A7"@ || m9.contains_key(n));
        assert(n == "A7"@ ==> m10[n] == seq![0i8, -1i8, 0, 2, 0, 2, 0]);
        assert(n != "A7"@ ==> m10[n] == m9[n]);
        assert(m11.contains_key(n) <==> n == "A7/C#"@ || m10.contains_key(n));
        assert(n == "A7/C#"@ ==> m11[n] == seq![4i8, -1i8, 1, 2, 3, 2, 2]);
        assert(n != "A7/C#"@ ==> m11[n] == m10[n]);
        assert(m12.contains_key(n) <==> n == "A9"@ || m11.contains_key(n));
        assert(n == "A9"@ ==> m12[n] == seq![4i8, 2, 1, 2, 1, 2, -1i8]);
        assert(n != "A9"@ ==> m12[n] == m11[n]);
        assert(m13.contains_key(n) <==> n == "Am"@ || m12.contains_key(n));
        assert(n == "Am"@ ==> m13[n] == seq![0i8, -1i8, 0, 2, 2, 1, 0]);
        assert(n != "Am"@ ==> m13[n] == m12[n]);
        assert(m14.contains_key(n) <==> n == "Am/C"@ || m13.contains_key(n));
        assert(n == "Am/C"@ ==> m14[n] == seq![1i8, -1i8, 3, 2, 2, 1, 0]);
        assert(n != "Am/C"@ ==> m14[n] == m13[n]);
        assert(m15.contains_key(n) <==> n == "Am/E"@ || m14.contains_key(n));
        assert(n == "Am/E"@ ==> m15[n] == seq![1i8, 0, 0, 2, 2, 1, 0]);
        assert(n != "Am/E"@ ==> m15[n] == m14[n]);
        assert(m16.contains_key(n) <==> n == "Am/F#"@ || m15.contains_key(n));
        assert(n == "Am/F#"@ ==> m16[n] == seq![1i8, 2, 0, 2, 2, 1, 0]);
        assert(n != "Am/F#"@ ==> m16[n] == m15[n]);
        assert(m17.contains_key(n) <==> n == "Am/G"@ || m16.contains_key(n));
        assert(n == "Am/G"@ ==> m17[n] == seq![1i8, 3, 0, 2, 2, 1, 0]);
        assert(n != "Am/G"@ ==> m17[n] == m16[n]);
        assert(m18.contains_key(n) <==> n == "Am6"@ || m17.contains_key(n));
        assert(n == "Am6"@ ==> m18[n] == seq![1i8, -1i8, 0, 2, 2, 1, 2]);
        assert(n != "Am6"@ ==> m18[n] == m17[n]);
        assert(m19.contains_key(n) <==> n == "Am7"@ || m18.contains_key(n));
        assert(n == "Am7"@ ==> m19[n] == seq![1i8, -1i8, 0, 2, 0, 1, 0]);
        assert(n != "Am7"@ ==> m19[n] == m18[n]);
        assert(m20.contains_key(n) <==> n == "Am7/G"@ || m19.contains_key(n));
        assert(n == "Am7/G"@ ==> m20[n] == seq![1i8, 3, 0, 2, 0, 1, 0]);
        assert(n != "Am7/G"@ ==> m20[n] == m19[n]);
        assert(m21.contains_key(n) <==> n == "Am9"@ || m20.contains_key(n));
        assert(n == "Am9"@ ==> m21[n] == seq![5i8, 1, 3, 1, 1, 1, 3]);
        assert(n != "Am9"@ ==> m21[n] == m20[n]);
        assert(m22.contains_key(n) <==> n == "Amaj7"@ || m21.contains_key(n));
        assert(n == "Amaj7"@ ==> m22[n] == seq![1i8, -1i8, 0, 2, 1, 2, 0]);
        assert(n != "Amaj7"@ ==> m22[n] == m21[n]);
        assert(m23.contains_key(n) <==> n == "Asus"@ || m22.contains_key(n));
        assert(n == "Asus"@ ==> m23[n] == seq![1i8, -1i8, 0, 2, 2, 3, 0]);
        assert(n != "Asus"@ ==> m23[n] == m22[n]);
        assert(m24.contains_key(n) <==> n == "Asus2"@ || m23.contains_key(n));
        assert(n == "Asus2"@ ==> m24[n] == seq![1i8, -1i8, 0, 2, 2, 0, 0]);
        assert(n != "Asus2"@ ==> m24[n] == m23[n]);
        assert(m25.contains_key(n) <==> n == "Asus4"@ || m24.contains_key(n));
        assert(n == "Asus4"@ ==> m25[n] == seq![1i8, -1i8, 0, 0, 2, 3, 0]);
        assert(n != "Asus4"@ ==> m25[n] == m24[n]);
        assert(m26.contains_key(n) <==> n == "Bb"@ || m25.contains_key(n));
        assert(n == "Bb"@ ==> m26[n] == seq![1i8, -1i8, 1, 3, 3, 3, 1]);
        assert(n != "Bb"@ ==> m26[n] == m25[n]);
        assert(m27.contains_key(n) <==> n == "Bbm"@ || m26.contains_key(n));
        assert(n == "Bbm"@ ==> m27[n] == seq![1i8, -1i8, 1, 3, 3, 2, 1]);
        assert(n != "Bbm"@ ==> m27[n] == m26[n]);
        assert(m28.contains_key(n) <==> n == "Bb7"@ || m27.contains_key(n));
        assert(n == "Bb7"@ ==> m28[n] == seq![1i8, -1i8, 1, 3, 1, 3, 1]);
        assert(n != "Bb7"@ ==> m28[n] == m27[n]);
        assert(m29.contains_key(n) <==> n == "Bbm7"@ || m28.contains_key(n));
        assert(n == "Bbm7"@ ==> m29[n] == seq![1i8, -1i8, 1, 3, 1, 2, 1]);
        assert(n != "Bbm7"@ ==> m29[n] == m28[n]);
        assert(m30.contains_key(n) <==> n == "Bb9'"@ || m29.contains_key(n));
        assert(n == "Bb9'"@ ==> m30[n] == seq![1i8, -1i8, 1, 0, 1, 1, 1]);
        assert(n != "Bb9'"@ ==> m30[n] == m29[n]);
    }
}

/// The first 60 bindings of the built-in guitar table.
pub open spec fn guitar_table_b() -> Map<Seq<char>, Seq<i8>> {
    guitar_table_a()
        .insert("Bb/E"@, seq![1i8, 0, 1, 3, 3, 3, 1])
        .insert("Bb/D"@, seq![1i8, -1i8, -1i8, 0, 2, 2, 1])
        .insert("B"@, seq![2i8, -1i8, 1, 3, 3, 3, 1])
        .insert("B6"@, seq![2i8, -1i8, 1, 3, 3, 3, 3])
        .insert("B7"@, seq![2i8, -1i8, 1, 3, 1, 3, 1])
        .insert("Bdim"@, seq![1i8, -1i8, 2, 3, 4, 3, -1i8])
        .insert("Bm"@, seq![2i8, -1i8, 1, 3, 3, 2, 1])
        .insert("Bm/F#"@, seq![2i8, 1, 1, 3, 3, 2, 1])
        .insert("Bm/G#"@, seq![4i8, 1, 2, 1, 4, 4, 4])
        .insert("Bm7"@, seq![2i8, -1i8, 1, 3, 1, 2, 1])
        .insert("Bmaj7"@, seq![2i8, -1i8, 1, 3, 2, 3, 1])
        .insert("Bsus4"@, seq![2i8, -1i8, 1, 1, 3, 4, 1])
        .insert("C"@, seq![0i8, -1i8, 3, 2, 0, 1, 0])
        .insert("C/B"@, seq![1i8, -1i8, 2, 2, 0, 1, 0])
        .insert("C/D"@, seq![1i8, -1i8, -1i8, 0, 0, 1, 0])
        .insert("C/E"@, seq![1i8, 0, 3, 2, 0, 1, 0])
        .insert("C/G"@, seq![1i8, 3, 3, 2, 0, 1, 0])
        .insert("C6"@, seq![1i8, -1i8, 3, 2, 2, 1, 0])
        .insert("C7"@, seq![1i8, -1i8, 3, 2, 3, 1, 0])
        .insert("C7sus4"@, seq![1i8, -1i8, 3, 3, 3, 1, 1])
        .insert("Cdim"@, seq![3i8, -1i8, 1, 2, 3, 2, -1i8])
        .insert("Cm"@, seq![3i8, -1i8, 1, 3, 3, 2, 1])
        .insert("Cm7"@, seq![3i8, -1i8, 1, 3, 1, 2, 1])
        .insert("Cmaj7"@, seq![0i8, -1i8, 3, 2, 0, 0, 0])
        .insert("Cmaj7"@, seq![1i8, -1i8, 3, 2, 0, 0, 0])
        .insert("Csus4"@, seq![1i8, -1i8, 3, 3, 0, 1, 1])
        .insert("C#"@, seq![4i8, -1i8, 1, 3, 3, 3, 1])
        .insert("C#7"@, seq![4i8, -1i8, 1, 3, 1, 3, 1])
        .insert("C#m"@, seq![4i8, -1i8, 1, 3, 3, 2, 1])
        .insert("C#m7"@, seq![4i8, -1i8, 1, 3, 1, 2, 1])
}

/// A name among the first 60 guitar bindings.
pub open spec fn guitar_name_b(n: Seq<char>) -> bool {
    ||| n == "Bb/E"@
    ||| n == "Bb/D"@
    ||| n == "B"@
    ||| n == "B6"@
    ||| n == "B7"@
    ||| n == "Bdim"@
    ||| n == "Bm"@
    ||| n == "Bm/F#"@
    ||| n == "Bm/G#"@
    ||| n == "Bm7"@
    ||| n == "Bmaj7"@
    ||| n == "Bsus4"@
    ||| n == "C"@
    ||| n == "C/B"@
    ||| n == "C/D"@
    ||| n == "C/E"@
    ||| n == "C/G"@
    ||| n == "C6"@
    ||| n == "C7"@
    ||| n == "C7sus4"@
    ||| n == "Cdim"@
    ||| n == "Cm"@
    ||| n == "Cm7"@
    ||| n == "Cmaj7"@
    ||| n == "Csus4"@
    ||| n == "C#"@
    ||| n == "C#7"@
    ||| n == "C#m"@
    ||| n == "C#m7"@
    ||| guitar_name_a(n)
}

/// The stored fingering among the first 60 guitar bindings.
pub open spec fn guitar_fingering_b(n: Seq<char>) -> Seq<i8> {
    if n == "C#m7"@ {
        seq![4i8, -1i8, 1, 3, 1, 2, 1]
    } else if n == "C#m"@ {
        seq![4i8, -1i8, 1, 3, 3, 2, 1]
    } else if n == "C#7"@ {
        seq![4i8, -1i8, 1, 3, 1, 3, 1]
    } else if n == "C#"@ {
        seq![4i8, -1i8, 1, 3, 3, 3, 1]
    } else if n == "Csus4"@ {
        seq![1i8, -1i8, 3, 3, 0, 1, 1]
    } else if n == "Cmaj7"@ {
        seq![1i8, -1i8, 3, 2, 0, 0, 0]
    } else if n == "Cm7"@ {
        seq![3i8, -1i8, 1, 3, 1, 2, 1]
    } else if n == "Cm"@ {
        seq![3i8, -1i8, 1, 3, 3, 2, 1]
    } else if n == "Cdim"@ {
        seq![3i8, -1i8, 1, 2, 3, 2, -1i8]
    } else if n == "C7sus4"@ {
        seq![1i8, -1i8, 3, 3, 3, 1, 1]
    } else if n == "C7"@ {
        seq![1i8, -1i8, 3, 2, 3, 1, 0]
    } else if n == "C6"@ {
        seq![1i8, -1i8, 3, 2, 2, 1, 0]
    } else if n == "C/G"@ {
        seq![1i8, 3, 3, 2, 0, 1, 0]
    } else if n == "C/E"@ {
        seq![1i8, 0, 3, 2, 0, 1, 0]
    } else if n == "C/D"@ {
        seq![1i8, -1i8, -1i8, 0, 0, 1, 0]
    } else if n == "C/B"@ {
        seq![1i8, -1i8, 2, 2, 0, 1, 0]
    } else if n == "C"@ {
        seq![0i8, -1i8, 3, 2, 0, 1, 0]
    } else if n == "Bsus4"@ {
        seq![2i8, -1i8, 1, 1, 3, 4, 1]
    } else if n == "Bmaj7"@ {
        seq![2i8, -1i8, 1, 3, 2, 3, 1]
    } else if n == "Bm7"@ {
        seq![2i8, -1i8, 1, 3, 1, 2, 1]
    } else if n == "Bm/G#"@ {
        seq![4i8, 1, 2, 1, 4, 4, 4]
    } else if n == "Bm/F#"@ {
        seq![2i8, 1, 1, 3, 3, 2, 1]
    } else if n == "Bm"@ {
        seq![2i8, -1i8, 1, 3, 3, 2, 1]
    } else if n == "Bdim"@ {
        seq![1i8, -1i8, 2, 3, 4, 3, -1i8]
    } else if n == "B7"@ {
        seq![2i8, -1i8, 1, 3, 1, 3, 1]
    } else if n == "B6"@ {
        seq![2i8, -1i8, 1, 3, 3, 3, 3]
    } else if n == "B"@ {
        seq![2i8, -1i8, 1, 3, 3, 3, 1]
    } else if n == "Bb/D"@ {
        seq![1i8, -1i8, -1i8, 0, 2, 2, 1]
    } else if n == "Bb/E"@ {
        seq![1i8, 0, 1, 3, 3, 3, 1]
    } else {
        guitar_fingering_a(n)
    }
}

/// Flat form of the first 60 guitar bindings.
#[verifier::rlimit(100)]
#[verifier::spinoff_prover]
proof fn lemma_guitar_flat_b()
    ensures
        forall|n: Seq<char>| #[trigger] guitar_table_b().contains_key(n) <==> guitar_name_b(n),
        forall|n: Seq<char>| #[trigger] guitar_name_b(n) ==> guitar_table_b()[n] == guitar_fingering_b(n),
{
    let m0 = guitar_table_a();
    let m1 = m0.insert("Bb/E"@, seq![1i8, 0, 1, 3, 3, 3, 1]);
    let m2 = m1.insert("Bb/D"@, seq![1i8, -1i8, -1i8, 0, 2, 2, 1]);
    let m3 = m2.insert("B"@, seq![2i8, -1i8, 1, 3, 3, 3, 1]);
    let m4 = m3.insert("B6"@, seq![2i8, -1i8, 1, 3, 3, 3, 3]);
    let m5 = m4.insert("B7"@, seq![2i8, -1i8, 1, 3, 1, 3, 1]);
    let m6 = m5.insert("Bdim"@, seq![1i8, -1i8, 2, 3, 4, 3, -1i8]);
    let m7 = m6.insert("Bm"@, seq![2i8, -1i8, 1, 3, 3, 2, 1]);
    let m8 = m7.insert("Bm/F#"@, seq![2i8, 1, 1, 3, 3, 2, 1]);
    let m9 = m8.insert("Bm/G#"@, seq![4i8, 1, 2, 1, 4, 4, 4]);
    let m10 = m9.insert("Bm7"@, seq![2i8, -1i8, 1, 3, 1, 2, 1]);
    let m11 = m10.insert("Bmaj7"@, seq![2i8, -1i8, 1, 3, 2, 3, 1]);
    let m12 = m11.insert("Bsus4"@, seq![2i8, -1i8, 1, 1, 3, 4, 1]);
    let m13 = m12.insert("C"@, seq![0i8, -1i8, 3, 2, 0, 1, 0]);
    let m14 = m13.insert("C/B"@, seq![1i8, -1i8, 2, 2, 0, 1, 0]);
    let m15 = m14.insert("C/D"@, seq![1i8, -1i8, -1i8, 0, 0, 1, 0]);
    let m16 = m15.insert("C/E"@, seq![1i8, 0, 3, 2, 0, 1, 0]);
    let m17 = m16.insert("C/G"@, seq![1i8, 3, 3, 2, 0, 1, 0]);
    let m18 = m17.insert("C6"@, seq![1i8, -1i8, 3, 2, 2, 1, 0]);
    let m19 = m18.insert("C7"@, seq![1i8, -1i8, 3, 2, 3, 1, 0]);
    let m20 = m19.insert("C7sus4"@, seq![1i8, -1i8, 3, 3, 3, 1, 1]);
    let m21 = m20.insert("Cdim"@, seq![3i8, -1i8, 1, 2, 3, 2, -1i8]);
    let m22 = m21.insert("Cm"@, seq![3i8, -1i8, 1, 3, 3, 2, 1]);
    let m23 = m22.insert("Cm7"@, seq![3i8, -1i8, 1, 3, 1, 2, 1]);
    let m24 = m23.insert("Cmaj7"@, seq![0i8, -1i8, 3, 2, 0, 0, 0]);
    let m25 = m24.insert("Cmaj7"@, seq![1i8, -1i8, 3, 2, 0, 0, 0]);
    let m26 = m25.insert("Csus4"@, seq![1i8, -1i8, 3, 3, 0, 1, 1]);
    let m27 = m26.insert("C#"@, seq![4i8, -1i8, 1, 3, 3, 3, 1]);
    let m28 = m27.insert("C#7"@, seq![4i8, -1i8, 1, 3, 1, 3, 1]);
    let m29 = m28.insert("C#m"@, seq![4i8, -1i8, 1, 3, 3, 2, 1]);
    let m30 = m29.insert("C#m7"@, seq![4i8, -1i8, 1, 3, 1, 2, 1]);
    assert(guitar_table_b() == m30);
    assert forall|n: Seq<char>|
        (#[trigger] guitar_table_b().contains_key(n) <==> guitar_name_b(n)) && ((
        #[trigger] guitar_name_b(n)) ==> guitar_table_b()[n] == guitar_fingering_b(n)) by {
        lemma_guitar_flat_a();
        assert(m0.contains_key(n) <==> guitar_name_a(n));
        if guitar_name_a(n) {
            assert(m0[n] == guitar_fingering_a(n));
        }
        assert(m1.contains_key(n) <==> n == "Bb/E"@ || m0.contains_key(n));
        assert(n == "Bb/E"@ ==> m1[n] == seq![1i8, 0, 1, 3, 3, 3, 1]);
        assert(n != "Bb/E"@ ==> m1[n] == m0[n]);
        assert(m2.contains_key(n) <==> n == "Bb/D"@ || m1.contains_key(n));
        assert(n == "Bb/D"@ ==> m2[n] == seq![1i8, -1i8, -1i8, 0, 2, 2, 1]);
        assert(n != "Bb/D"@ ==> m2[n] == m1[n]);
        assert(m3.contains_key(n) <==> n == "B"@ || m2.contains_key(n));
        assert(n == "B"@ ==> m3[n] == seq![2i8, -1i8, 1, 3, 3, 3, 1]);
        assert(n != "B"@ ==> m3[n] == m2[n]);
        assert(m4.contains_key(n) <==> n == "B6"@ || m3.contains_key(n));
        assert(n == "B6"@ ==> m4[n] == seq![2i8, -1i8, 1, 3, 3, 3, 3]);
        assert(n != "B6"@ ==> m4[n] == m3[n]);
        assert(m5.contains_key(n) <==> n == "B7"@ || m4.contains_key(n));
        assert(n == "B7"@ ==> m5[n] == seq![2i8, -1i8, 1, 3, 1, 3, 1]);
        assert(n != "B7"@ ==> m5[n] == m4[n]);
        assert(m6.contains_key(n) <==> n == "Bdim"@ || m5.contains_key(n));
        assert(n == "Bdim"@ ==> m6[n] == seq![1i8, -1i8, 2, 3, 4, 3, -1i8]);
        assert(n != "Bdim"@ ==> m6[n] == m5[n]);
        assert(m7.contains_key(n) <==> n == "Bm"@ || m6.contains_key(n));
        assert(n == "Bm"@ ==> m7[n] == seq![2i8, -1i8, 1, 3, 3, 2, 1]);
        assert(n != "Bm"@ ==> m7[n] == m6[n]);
        assert(m8.contains_key(n) <==> n == "Bm/F#"@ || m7.contains_key(n));
        assert(n == "Bm/F#"@ ==> m8[n] == seq![2i8, 1, 1, 3, 3, 2, 1]);
        assert(n != "Bm/F#"@ ==> m8[n] == m7[n]);
        assert(m9.contains_key(n) <==> n == "Bm/G#"@ || m8.contains_key(n));
        assert(n == "Bm/G#"@ ==> m9[n] == seq![4i8, 1, 2, 1, 4, 4, 4]);
        assert(n != "Bm/G#"@ ==> m9[n] == m8[n]);
        assert(m10.contains_key(n) <==> n == "Bm7"@ || m9.contains_key(n));
        assert(n == "Bm7"@ ==> m10[n] == seq![2i8, -1i8, 1, 3, 1, 2, 1]);
        assert(n != "Bm7"@ ==> m10[n] == m9[n]);
        assert(m11.contains_key(n) <==> n == "Bmaj7"@ || m10.contains_key(n));
        assert(n == "Bmaj7"@ ==> m11[n] == seq![2i8, -1i8, 1, 3, 2, 3, 1]);
        assert(n != "Bmaj7"@ ==> m11[n] == m10[n]);
        assert(m12.contains_key(n) <==> n == "Bsus4"@ || m11.contains_key(n));
        assert(n == "Bsus4"@ ==> m12[n] == seq![2i8, -1i8, 1, 1, 3, 4, 1]);
        assert(n != "Bsus4"@ ==> m12[n] == m11[n]);
        assert(m13.contains_key(n) <==> n == "C"@ || m12.contains_key(n));
        assert(n == "C"@ ==> m13[n] == seq![0i8, -1i8, 3, 2, 0, 1, 0]);
        assert(n != "C"@ ==> m13[n] == m12[n]);
        assert(m14.contains_key(n) <==> n == "C/B"@ || m13.contains_key(n));
        assert(n == "C/B"@ ==> m14[n] == seq![1i8, -1i8, 2, 2, 0, 1, 0]);
        assert(n != "C/B"@ ==> m14[n] == m13[n]);
        assert(m15.contains_key(n) <==> n == "C/D"@ || m14.contains_key(n));
        assert(n == "C/D"@ ==> m15[n] == seq![1i8, -1i8, -1i8, 0, 0, 1, 0]);
        assert(n != "C/D"@ ==> m15[n] == m14[n]);
        assert(m16.contains_key(n) <==> n == "C/E"@ || m15.contains_key(n));
        assert(n == "C/E"@ ==> m16[n] == seq![1i8, 0, 3, 2, 0, 1, 0]);
        assert(n != "C/E"@ ==> m16[n] == m15[n]);
        assert(m17.contains_key(n) <==> n == "C/G"@ || m16.contains_key(n));
        assert(n == "C/G"@ ==> m17[n] == seq![1i8, 3, 3, 2, 0, 1, 0]);
        assert(n != "C/G"@ ==> m17[n] == m16[n]);
        assert(m18.contains_key(n) <==> n == "C6"@ || m17.contains_key(n));
        assert(n == "C6"@ ==> m18[n] == seq![1i8, -1i8, 3, 2, 2, 1, 0]);
        assert(n != "C6"@ ==> m18[n] == m17[n]);
        assert(m19.contains_key(n) <==> n == "C7"@ || m18.contains_key(n));
        assert(n == "C7"@ ==> m19[n] == seq![1i8, -1i8, 3, 2, 3, 1, 0]);
        assert(n != "C7"@ ==> m19[n] == m18[n]);
        assert(m20.contains_key(n) <==> n == "C7sus4"@ || m19.contains_key(n));
        assert(n == "C7sus4"@ ==> m20[n] == seq![1i8, -1i8, 3, 3, 3, 1, 1]);
        assert(n != "C7sus4"@ ==> m20[n] == m19[n]);
        assert(m21.contains_key(n) <==> n == "Cdim"@ || m20.contains_key(n));
        assert(n == "Cdim"@ ==> m21[n] == seq![3i8, -1i8, 1, 2, 3, 2, -1i8]);
        assert(n != "Cdim"@ ==> m21[n] == m20[n]);
        assert(m22.contains_key(n) <==> n == "Cm"@ || m21.contains_key(n));
        assert(n == "Cm"@ ==> m22[n] == seq![3i8, -1i8, 1, 3, 3, 2, 1]);
        assert(n != "Cm"@ ==> m22[n] == m21[n]);
        assert(m23.contains_key(n) <==> n == "Cm7"@ || m22.contains_key(n));
        assert(n == "Cm7"@ ==> m23[n] == seq![3i8, -1i8, 1, 3, 1, 2, 1]);
        assert(n != "Cm7"@ ==> m23[n] == m22[n]);
        assert(m24.contains_key(n) <==> n == "Cmaj7"@ || m23.contains_key(n));
        assert(n == "Cmaj7"@ ==> m24[n] == seq![0i8, -1i8, 3, 2, 0, 0, 0]);
        assert(n != "Cmaj7"@ ==> m24[n] == m23[n]);
        assert(m25.contains_key(n) <==> n == "Cmaj7"@ || m24.contains_key(n));
        assert(n == "Cmaj7"@ ==> m25[n] == seq![1i8, -1i8, 3, 2, 0, 0, 0]);
        assert(n != "Cmaj7"@ ==> m25[n] == m24[n]);
        assert(m26.contains_key(n) <==> n == "Csus4"@ || m25.contains_key(n));
        assert(n == "Csus4"@ ==> m26[n] == seq![1i8, -1i8, 3, 3, 0, 1, 1]);
        assert(n != "Csus4"@ ==> m26[n] == m25[n]);
        assert(m27.contains_key(n) <==> n == "C#"@ || m26.contains_key(n));
        assert(n == "C#"@ ==> m27[n] == seq![4i8, -1i8, 1, 3, 3, 3, 1]);
        assert(n != "C#"@ ==> m27[n] == m26[n]);
        assert(m28.contains_key(n) <==> n == "C#7"@ || m27.contains_key(n));
        assert(n == "C#7"@ ==> m28[n] == seq![4i8, -1i8, 1, 3, 1, 3, 1]);
        assert(n != "C#7"@ ==> m28[n] == m27[n]);
        assert(m29.contains_key(n) <==> n == "C#m"@ || m28.contains_key(n));
        assert(n == "C#m"@ ==> m29[n] == seq![4i8, -1i8, 1, 3, 3, 2, 1]);
        assert(n != "C#m"@ ==> m29[n] == m28[n]);
        assert(m30.contains_key(n) <==> n == "C#m7"@ || m29.contains_key(n));
        assert(n == "C#m7"@ ==> m30[n] == seq![4i8, -1i8, 1, 3, 1, 2, 1]);
        assert(n != "C#m7"@ ==> m30[n] == m29[n]);
    }
}

/// The first 90 bindings of the built-in guitar table.
pub open spec fn guitar_table_c() -> Map<Seq<char>, Seq<i8>> {
    guitar_table_b()
        .insert("C#sus4"@, seq![1i8, -1i8, 4, 4, 1, 2, 2])
        .insert("Db"@, seq![1i8, -1i8, 4, 3, 1, 2, 1])
        .insert("D"@, seq![0i8, -1i8, -1i8, 0, 2, 3, 2])
        .insert("D/A"@, seq![0i8, -1i8, 0, 0, 2, 3, 2])
        .insert("D/F#"@, seq![0i8, 2, 0, 0, 2, 3, 2])
        .insert("D7"@, seq![0i8, -1i8, -1i8, 0, 2, 1, 2])
        .insert("Dm"@, seq![0i8, -1i8, -1i8, 0, 2, 3, 1])
        .insert("Dm7"@, seq![0i8, -1i8, -1i8, 0, 2, 1, 1])
        .insert("Dmaj7"@, seq![0i8, -1i8, -1i8, 0, 2, 2, 2])
        .insert("Dsus4"@, seq![0i8, -1i8, -1i8, 0, 2, 3, 3])
        .insert("D#dim"@, seq![0i8, -1i8, -1i8, 1, 2, 4, 2])
        .insert("Eb"@, seq![3i8, -1i8, 4, 3, 1, 2, 1])
        .insert("Eb7"@, seq![0i8, -1i8, -1i8, 1, 0, 2, 3])
        .insert("Ebm"@, seq![0i8, -1i8, -1i8, 1, 3, 4, 2])
        .insert("E"@, seq![0i8, 0, 2, 2, 1, 0, 0])
        .insert("E/G#"@, seq![0i8, -1i8, -1i8, -1i8, 1, 0, 0])
        .insert("E7"@, seq![0i8, 0, 2, 2, 1, 3, 0])
        .insert("E9"@, seq![0i8, 0, 2, 0, 1, 0, 2])
        .insert("Eadd9"@, seq![0i8, 0, 2, 2, 1, 3, 3])
        .insert("Em"@, seq![0i8, 0, 2, 2, 0, 0, 0])
        .insert("Em6"@, seq![0i8, 0, 2, 2, 0, 2, 0])
        .insert("Em7"@, seq![0i8, 0, 2, 2, 0, 3, 0])
        .insert("Emaj7"@, seq![0i8, 0, 2, 1, 1, 0, 0])
        .insert("Esus4"@, seq![0i8, 0, 0, 2, 2, 0, 0])
        .insert("F"@, seq![0i8, 1, 3, 3, 2, 1, 1])
        .insert("F/A"@, seq![0i8, -1i8, 0, 3, 2, 1, 1])
        .insert("F7"@, seq![0i8, 1, 3, 1, 2, 1, 1])
        .insert("Fm"@, seq![0i8, 1, 3, 3, 1, 1, 1])
        .insert("Fmaj7"@, seq![0i8, 1, 3, 2, 2, 1, 1])
        .insert("Fsus4"@, seq![0i8, 1, 1, 3, 3, 1, 1])
}

/// A name among the first 90 guitar bindings.
pub open spec fn guitar_name_c(n: Seq<char>) -> bool {
    ||| n == "C#sus4"@
    ||| n == "Db"@
    ||| n == "D"@
    ||| n == "D/A"@
    ||| n == "D/F#"@
    ||| n == "D7"@
    ||| n == "Dm"@
    ||| n == "Dm7"@
    ||| n == "Dmaj7"@
    ||| n == "Dsus4"@
    ||| n == "D#dim"@
    ||| n == "Eb"@
    ||| n == "Eb7"@
    ||| n == "Ebm"@
    ||| n == "E"@
    ||| n == "E/G#"@
    ||| n == "E7"@
    ||| n == "E9"@
    ||| n == "Eadd9"@
    ||| n == "Em"@
    ||| n == "Em6"@
    ||| n == "Em7"@
    ||| n == "Emaj7"@
    ||| n == "Esus4"@
    ||| n == "F"@
    ||| n == "F/A"@
    ||| n == "F7"@
    ||| n == "Fm"@
    ||| n == "Fmaj7"@
    ||| n == "Fsus4"@
    ||| guitar_name_b(n)
}

/// The stored fingering among the first 90 guitar bindings.
pub open spec fn guitar_fingering_c(n: Seq<char>) -> Seq<i8> {
    if n == "Fsus4"@ {
        seq![0i8, 1, 1, 3, 3, 1, 1]
    } else if n == "Fmaj7"@ {
        seq![0i8, 1, 3, 2, 2, 1, 1]
    } else if n == "Fm"@ {
        seq![0i8, 1, 3, 3, 1, 1, 1]
    } else if n == "F7"@ {
        seq![0i8, 1, 3, 1, 2, 1, 1]
    } else if n == "F/A"@ {
        seq![0i8, -1i8, 0, 3, 2, 1, 1]
    } else if n == "F"@ {
        seq![0i8, 1, 3, 3, 2, 1, 1]
    } else if n == "Esus4"@ {
        seq![0i8, 0, 0, 2, 2, 0, 0]
    } else if n == "Emaj7"@ {
        seq![0i8, 0, 2, 1, 1, 0, 0]
    } else if n == "Em7"@ {
        seq![0i8, 0, 2, 2, 0, 3, 0]
    } else if n == "Em6"@ {
        seq![0i8, 0, 2, 2, 0, 2, 0]
    } else if n == "Em"@ {
        seq![0i8, 0, 2, 2, 0, 0, 0]
    } else if n == "Eadd9"@ {
        seq![0i8, 0, 2, 2, 1, 3, 3]
    } else if n == "E9"@ {
        seq![0i8, 0, 2, 0, 1, 0, 2]
    } else if n == "E7"@ {
        seq![0i8, 0, 2, 2, 1, 3, 0]
    } else if n == "E/G#"@ {
        seq![0i8, -1i8, -1i8, -1i8, 1, 0, 0]
    } else if n == "E"@ {
        seq![0i8, 0, 2, 2, 1, 0, 0]
    } else if n == "Ebm"@ {
        seq![0i8, -1i8, -1i8, 1, 3, 4, 2]
    } else if n == "Eb7"@ {
        seq![0i8, -1i8, -1i8, 1, 0, 2, 3]
    } else if n == "Eb"@ {
        seq![3i8, -1i8, 4, 3, 1, 2, 1]
    } else if n == "D#dim"@ {
        seq![0i8, -1i8, -1i8, 1, 2, 4, 2]
    } else if n == "Dsus4"@ {
        seq![0i8, -1i8, -1i8, 0, 2, 3, 3]
    } else if n == "Dmaj7"@ {
        seq![0i8, -1i8, -1i8, 0, 2, 2, 2]
    } else if n == "Dm7"@ {
        seq![0i8, -1i8, -1i8, 0, 2, 1, 1]
    } else if n == "Dm"@ {
        seq![0i8, -1i8, -1i8, 0, 2, 3, 1]
    } else if n == "D7"@ {
        seq![0i8, -1i8, -1i8, 0, 2, 1, 2]
    } else if n == "D/F#"@ {
        seq![0i8, 2, 0, 0, 2, 3, 2]
    } else if n == "D/A"@ {
        seq![0i8, -1i8, 0, 0, 2, 3, 2]
    } else if n == "D"@ {
        seq![0i8, -1i8, -1i8, 0, 2, 3, 2]
    } else if n == "Db"@ {
        seq![1i8, -1i8, 4, 3, 1, 2, 1]
    } else if n == "C#sus4"@ {
        seq![1i8, -1i8, 4, 4, 1, 2, 2]
    } else {
        guitar_fingering_b(n)
    }
}

/// Flat form of the first 90 guitar bindings.
#[verifier::rlimit(100)]
#[verifier::spinoff_prover]
proof fn lemma_guitar_flat_c()
    ensures
        forall|n: Seq<char>| #[trigger] guitar_table_c().contains_key(n) <==> guitar_name_c(n),
        forall|n: Seq<char>| #[trigger] guitar_name_c(n) ==> guitar_table_c()[n] == guitar_fingering_c(n),
{
    let m0 = guitar_table_b();
    let m1 = m0.insert("C#sus4"@, seq![1i8, -1i8, 4, 4, 1, 2, 2]);
    let m2 = m1.insert("Db"@, seq![1i8, -1i8, 4, 3, 1, 2, 1]);
    let m3 = m2.insert("D"@, seq![0i8, -1i8, -1i8, 0, 2, 3, 2]);
    let m4 = m3.insert("D/A"@, seq![0i8, -1i8, 0, 0, 2, 3, 2]);
    let m5 = m4.insert("D/F#"@, seq![0i8, 2, 0, 0, 2, 3, 2]);
    let m6 = m5.insert("D7"@, seq![0i8, -1i8, -1i8, 0, 2, 1, 2]);
    let m7 = m6.insert("Dm"@, seq![0i8, -1i8, -1i8, 0, 2, 3, 1]);
    let m8 = m7.insert("Dm7"@, seq![0i8, -1i8, -1i8, 0, 2, 1, 1]);
    let m9 = m8.insert("Dmaj7"@, seq![0i8, -1i8, -1i8, 0, 2, 2, 2]);
    let m10 = m9.insert("Dsus4"@, seq![0i8, -1i8, -1i8, 0, 2, 3, 3]);
    let m11 = m10.insert("D#dim"@, seq![0i8, -1i8, -1i8, 1, 2, 4, 2]);
    let m12 = m11.insert("Eb"@, seq![3i8, -1i8, 4, 3, 1, 2, 1]);
    let m13 = m12.insert("Eb7"@, seq![0i8, -1i8, -1i8, 1, 0, 2, 3]);
    let m14 = m13.insert("Ebm"@, seq![0i8, -1i8, -1i8, 1, 3, 4, 2]);
    let m15 = m14.insert("E"@, seq![0i8, 0, 2, 2, 1, 0, 0]);
    let m16 = m15.insert("E/G#"@, seq![0i8, -1i8, -1i8, -1i8, 1, 0, 0]);
    let m17 = m16.insert("E7"@, seq![0i8, 0, 2, 2, 1, 3, 0]);
    let m18 = m17.insert("E9"@, seq![0i8, 0, 2, 0, 1, 0, 2]);
    let m19 = m18.insert("Eadd9"@, seq![0i8, 0, 2, 2, 1, 3, 3]);
    let m20 = m19.insert("Em"@, seq![0i8, 0, 2, 2, 0, 0, 0]);
    let m21 = m20.insert("Em6"@, seq![0i8, 0, 2, 2, 0, 2, 0]);
    let m22 = m21.insert("Em7"@, seq![0i8, 0, 2, 2, 0, 3, 0]);
    let m23 = m22.insert("Emaj7"@, seq![0i8, 0, 2, 1, 1, 0, 0]);
    let m24 = m23.insert("Esus4"@, seq![0i8, 0, 0, 2, 2, 0, 0]);
    let m25 = m24.insert("F"@, seq![0i8, 1, 3, 3, 2, 1, 1]);
    let m26 = m25.insert("F/A"@, seq![0i8, -1i8, 0, 3, 2, 1, 1]);
    let m27 = m26.insert("F7"@, seq![0i8, 1, 3, 1, 2, 1, 1]);
    let m28 = m27.insert("Fm"@, seq![0i8, 1, 3, 3, 1, 1, 1]);
    let m29 = m28.insert("Fmaj7"@, seq![0i8, 1, 3, 2, 2, 1, 1]);
    let m30 = m29.insert("Fsus4"@, seq![0i8, 1, 1, 3, 3, 1, 1]);
    assert(guitar_table_c() == m30);
    assert forall|n: Seq<char>|
        (#[trigger] guitar_table_c().contains_key(n) <==> guitar_name_c(n)) && ((
        #[trigger] guitar_name_c(n)) ==> guitar_table_c()[n] == guitar_fingering_c(n)) by {
        lemma_guitar_flat_b();
        assert(m0.contains_key(n) <==> guitar_name_b(n));
        if guitar_name_b(n) {
            assert(m0[n] == guitar_fingering_b(n));
        }
        assert(m1.contains_key(n) <==> n == "C#sus4"@ || m0.contains_key(n));
        assert(n == "C#sus4"@ ==> m1[n] == seq![1i8, -1i8, 4, 4, 1, 2, 2]);
        assert(n != "C#sus4"@ ==> m1[n] == m0[n]);
        assert(m2.contains_key(n) <==> n == "Db"@ || m1.contains_key(n));
        assert(n == "Db"@ ==> m2[n] == seq![1i8, -1i8, 4, 3, 1, 2, 1]);
        assert(n != "Db"@ ==> m2[n] == m1[n]);
        assert(m3.contains_key(n) <==> n == "D"@ || m2.contains_key(n));
        assert(n == "D"@ ==> m3[n] == seq![0i8, -1i8, -1i8, 0, 2, 3, 2]);
        assert(n != "D"@ ==> m3[n] == m2[n]);
        assert(m4.contains_key(n) <==> n == "D/A"@ || m3.contains_key(n));
        assert(n == "D/A"@ ==> m4[n] == seq![0i8, -1i8, 0, 0, 2, 3, 2]);
        assert(n != "D/A"@ ==> m4[n] == m3[n]);
        assert(m5.contains_key(n) <==> n == "D/F#"@ || m4.contains_key(n));
        assert(n == "D/F#"@ ==> m5[n] == seq![0i8, 2, 0, 0, 2, 3, 2]);
        assert(n != "D/F#"@ ==> m5[n] == m4[n]);
        assert(m6.contains_key(n) <==> n == "D7"@ || m5.contains_key(n));
        assert(n == "D7"@ ==> m6[n] == seq![0i8, -1i8, -1i8, 0, 2, 1, 2]);
        assert(n != "D7"@ ==> m6[n] == m5[n]);
        assert(m7.contains_key(n) <==> n == "Dm"@ || m6.contains_key(n));
        assert(n == "Dm"@ ==> m7[n] == seq![0i8, -1i8, -1i8, 0, 2, 3, 1]);
        assert(n != "Dm"@ ==> m7[n] == m6[n]);
        assert(m8.contains_key(n) <==> n == "Dm7"@ || m7.contains_key(n));
        assert(n == "Dm7"@ ==> m8[n] == seq![0i8, -1i8, -1i8, 0, 2, 1, 1]);
        assert(n != "Dm7"@ ==> m8[n] == m7[n]);
        assert(m9.contains_key(n) <==> n == "Dmaj7"@ || m8.contains_key(n));
        assert(n == "Dmaj7"@ ==> m9[n] == seq![0i8, -1i8, -1i8, 0, 2, 2, 2]);
        assert(n != "Dmaj7"@ ==> m9[n] == m8[n]);
        assert(m10.contains_key(n) <==> n == "Dsus4"@ || m9.contains_key(n));
        assert(n == "Dsus4"@ ==> m10[n] == seq![0i8, -1i8, -1i8, 0, 2, 3, 3]);
        assert(n != "Dsus4"@ ==> m10[n] == m9[n]);
        assert(m11.contains_key(n) <==> n == "D#dim"@ || m10.contains_key(n));
        assert(n == "D#dim"@ ==> m11[n] == seq![0i8, -1i8, -1i8, 1, 2, 4, 2]);
        assert(n != "D#dim"@ ==> m11[n] == m10[n]);
        assert(m12.contains_key(n) <==> n == "Eb"@ || m11.contains_key(n));
        assert(n == "Eb"@ ==> m12[n] == seq![3i8, -1i8, 4, 3, 1, 2, 1]);
        assert(n != "Eb"@ ==> m12[n] == m11[n]);
        assert(m13.contains_key(n) <==> n == "Eb7"@ || m12.contains_key(n));
        assert(n == "Eb7"@ ==> m13[n] == seq![0i8, -1i8, -1i8, 1, 0, 2, 3]);
        assert(n != "Eb7"@ ==> m13[n] == m12[n]);
        assert(m14.contains_key(n) <==> n == "Ebm"@ || m13.contains_key(n));
        assert(n == "Ebm"@ ==> m14[n] == seq![0i8, -1i8, -1i8, 1, 3, 4, 2]);
        assert(n != "Ebm"@ ==> m14[n] == m13[n]);
        assert(m15.contains_key(n) <==> n == "E"@ || m14.contains_key(n));
        assert(n == "E"@ ==> m15[n] == seq![0i8, 0, 2, 2, 1, 0, 0]);
        assert(n != "E"@ ==> m15[n] == m14[n]);
        assert(m16.contains_key(n) <==> n == "E/G#"@ || m15.contains_key(n));
        assert(n == "E/G#"@ ==> m16[n] == seq![0i8, -1i8, -1i8, -1i8, 1, 0, 0]);
        assert(n != "E/G#"@ ==> m16[n] == m15[n]);
        assert(m17.contains_key(n) <==> n == "E7"@ || m16.contains_key(n));
        assert(n == "E7"@ ==> m17[n] == seq![0i8, 0, 2, 2, 1, 3, 0]);
        assert(n != "E7"@ ==> m17[n] == m16[n]);
        assert(m18.contains_key(n) <==> n == "E9"@ || m17.contains_key(n));
        assert(n == "E9"@ ==> m18[n] == seq![0i8, 0, 2, 0, 1, 0, 2]);
        assert(n != "E9"@ ==> m18[n] == m17[n]);
        assert(m19.contains_key(n) <==> n == "Eadd9"@ || m18.contains_key(n));
        assert(n == "Eadd9"@ ==> m19[n] == seq![0i8, 0, 2, 2, 1, 3, 3]);
        assert(n != "Eadd9"@ ==> m19[n] == m18[n]);
        assert(m20.contains_key(n) <==> n == "Em"@ || m19.contains_key(n));
        assert(n == "Em"@ ==> m20[n] == seq![0i8, 0, 2, 2, 0, 0, 0]);
        assert(n != "Em"@ ==> m20[n] == m19[n]);
        assert(m21.contains_key(n) <==> n == "Em6"@ || m20.contains_key(n));
        assert(n == "Em6"@ ==> m21[n] == seq![0i8, 0, 2, 2, 0, 2, 0]);
        assert(n != "Em6"@ ==> m21[n] == m20[n]);
        assert(m22.contains_key(n) <==> n == "Em7"@ || m21.contains_key(n));
        assert(n == "Em7"@ ==> m22[n] == seq![0i8, 0, 2, 2, 0, 3, 0]);
        assert(n != "Em7"@ ==> m22[n] == m21[n]);
        assert(m23.contains_key(n) <==> n == "Emaj7"@ || m22.contains_key(n));
        assert(n == "Emaj7"@ ==> m23[n] == seq![0i8, 0, 2, 1, 1, 0, 0]);
        assert(n != "Emaj7"@ ==> m23[n] == m22[n]);
        assert(m24.contains_key(n) <==> n == "Esus4"@ || m23.contains_key(n));
        assert(n == "Esus4"@ ==> m24[n] == seq![0i8, 0, 0, 2, 2, 0, 0]);
        assert(n != "Esus4"@ ==> m24[n] == m23[n]);
        assert(m25.contains_key(n) <==> n == "F"@ || m24.contains_key(n));
        assert(n == "F"@ ==> m25[n] == seq![0i8, 1, 3, 3, 2, 1, 1]);
        assert(n != "F"@ ==> m25[n] == m24[n]);
        assert(m26.contains_key(n) <==> n == "F/A"@ || m25.contains_key(n));
        assert(n == "F/A"@ ==> m26[n] == seq![0i8, -1i8, 0, 3, 2, 1, 1]);
        assert(n != "F/A"@ ==> m26[n] == m25[n]);
        assert(m27.contains_key(n) <==> n == "F7"@ || m26.contains_key(n));
        assert(n == "F7"@ ==> m27[n] == seq![0i8, 1, 3, 1, 2, 1, 1]);
        assert(n != "F7"@ ==> m27[n] == m26[n]);
        assert(m28.contains_key(n) <==> n == "Fm"@ || m27.contains_key(n));
        assert(n == "Fm"@ ==> m28[n] == seq![0i8, 1, 3, 3, 1, 1, 1]);
        assert(n != "Fm"@ ==> m28[n] == m27[n]);
        assert(m29.contains_key(n) <==> n == "Fmaj7"@ || m28.contains_key(n));
        assert(n == "Fmaj7"@ ==> m29[n] == seq![0i8, 1, 3, 2, 2, 1, 1]);
        assert(n != "Fmaj7"@ ==> m29[n] == m28[n]);
        assert(m30.contains_key(n) <==> n == "Fsus4"@ || m29.contains_key(n));
        assert(n == "Fsus4"@ ==> m30[n] == seq![0i8, 1, 1, 3, 3, 1, 1]);
        assert(n != "Fsus4"@ ==> m30[n] == m29[n]);
    }
}

/// A name the built-in guitar table binds.
pub open spec fn guitar_name(n: Seq<char>) -> bool {
    ||| n == "F#"@
    ||| n == "F#7"@
    ||| n == "F#dim"@
    ||| n == "F#dim*"@
    ||| n == "F#m"@
    ||| n == "F#m7"@
    ||| n == "G"@
    ||| n == "G+"@
    ||| n == "G/A"@
    ||| n == "G/B"@
    ||| n == "G/C"@
    ||| n == "G/F"@
    ||| n == "G/F#"@
    ||| n == "G6"@
    ||| n == "G7"@
    ||| n == "G7/D"@
    ||| n == "Gm"@
    ||| n == "Gm6"@
    ||| n == "Gm7"@
    ||| n == "Gmaj7"@
    ||| n == "Gsus4"@
    ||| n == "G#"@
    ||| n == "G#7"@
    ||| n == "G#dim"@
    ||| n == "G#m"@
    ||| n == "G#m7"@
    ||| guitar_name_c(n)
}

/// The fingering the guitar table stores for a bound name; where a
/// name is bound twice, the later binding.
pub open spec fn guitar_fingering(n: Seq<char>) -> Seq<i8> {
    if n == "G#m7"@ {
        seq![4i8, 1, 3, 1, 1, 1, 1]
    } else if n == "G#m"@ {
        seq![4i8, 1, 3, 3, 1, 1, 1]
    } else if n == "G#dim"@ {
        seq![4i8, 1, 2, 3, 1, -1i8, -1i8]
    } else if n == "G#7"@ {
        seq![4i8, 1, 3, 1, 2, 1, 1]
    } else if n == "G#"@ {
        seq![4i8, 1, 3, 3, 2, 1, 1]
    } else if n == "Gsus4"@ {
        seq![0i8, 3, 3, 0, 0, 3, 3]
    } else if n == "Gmaj7"@ {
        seq![0i8, 3, 2, 0, 0, 0, 2]
    } else if n == "Gm7"@ {
        seq![3i8, 1, 3, 1, 1, 1, 1]
    } else if n == "Gm6"@ {
        seq![0i8, 3, 1, 0, 0, 3, 0]
    } else if n == "Gm"@ {
        seq![3i8, 1, 3, 3, 1, 1, 1]
    } else if n == "G7/D"@ {
        seq![0i8, -1i8, -1i8, 0, 0, 0, 1]
    } else if n == "G7"@ {
        seq![0i8, 3, 2, 0, 0, 0, 1]
    } else if n == "G6"@ {
        seq![0i8, 3, 2, 0, 0, 0, 0]
    } else if n == "G/F#"@ {
        seq![0i8, 2, 2, 0, 0, 0, 3]
    } else if n == "G/F"@ {
        seq![0i8, 1, 2, 0, 0, 3, 3]
    } else if n == "G/C"@ {
        seq![0i8, -1i8, 3, 0, 0, 0, 3]
    } else if n == "G/B"@ {
        seq![0i8, -1i8, 2, 0, 0, 3, 3]
    } else if n == "G/A"@ {
        seq![0i8, -1i8, 0, 0, 0, 0, 3]
    } else if n == "G+"@ {
        seq![0i8, 3, 2, 1, 0, 0, 3]
    } else if n == "G"@ {
        seq![0i8, 3, 2, 0, 0, 0, 3]
    } else if n == "F#m7"@ {
        seq![2i8, 1, 3, 1, 1, 1, 1]
    } else if n == "F#m"@ {
        seq![2i8, 1, 3, 3, 1, 1, 1]
    } else if n == "F#dim*"@ {
        seq![0i8, 2, 3, 4, 2, -1i8, -1i8]
    } else if n == "F#dim"@ {
        seq![0i8, -1i8, -1i8, 4, 2, 1, 2]
    } else if n == "F#7"@ {
        seq![2i8, 1, 3, 1, 2, 1, 1]
    } else if n == "F#"@ {
        seq![2i8, 1, 3, 3, 2, 1, 1]
    } else {
        guitar_fingering_c(n)
    }
}

/// The guitar table, spelled flat: it binds exactly the guitar names,
/// each to its stored fingering.
#[verifier::rlimit(100)]
#[verifier::spinoff_prover]
pub proof fn lemma_guitar_table_flat()
    ensures
        forall|n: Seq<char>| #[trigger] guitar_table().contains_key(n) <==> guitar_name(n),
        forall|n: Seq<char>| #[trigger] guitar_name(n) ==> guitar_table()[n] == guitar_fingering(n),
{
    let m0 = guitar_table_c();
    let m1 = m0.insert("F#"@, seq![2i8, 1, 3, 3, 2, 1, 1]);
    let m2 = m1.insert("F#7"@, seq![2i8, 1, 3, 1, 2, 1, 1]);
    let m3 = m2.insert("F#dim"@, seq![0i8, -1i8, -1i8, 4, 2, 1, 2]);
    let m4 = m3.insert("F#dim*"@, seq![0i8, 2, 3, 4, 2, -1i8, -1i8]);
    let m5 = m4.insert("F#m"@, seq![2i8, 1, 3, 3, 1, 1, 1]);
    let m6 = m5.insert("F#m7"@, seq![2i8, 1, 3, 1, 1, 1, 1]);
    let m7 = m6.insert("G"@, seq![0i8, 3, 2, 0, 0, 0, 3]);
    let m8 = m7.insert("G+"@, seq![0i8, 3, 2, 1, 0, 0, 3]);
    let m9 = m8.insert("G/A"@, seq![0i8, -1i8, 0, 0, 0, 0, 3]);
    let m10 = m9.insert("G/B"@, seq![0i8, -1i8, 2, 0, 0, 3, 3]);
    let m11 = m10.insert("G/C"@, seq![0i8, -1i8, 3, 0, 0, 0, 3]);
    let m12 = m11.insert("G/F"@, seq![0i8, 1, 2, 0, 0, 3, 3]);
    let m13 = m12.insert("G/F#"@, seq![0i8, 2, 2, 0, 0, 0, 3]);
    let m14 = m13.insert("G6"@, seq![0i8, 3, 2, 0, 0, 0, 0]);
    let m15 = m14.insert("G7"@, seq![0i8, 3, 2, 0, 0, 0, 1]);
    let m16 = m15.insert("G7/D"@, seq![0i8, -1i8, -1i8, 0, 0, 0, 1]);
    let m17 = m16.insert("Gm"@, seq![3i8, 1, 3, 3, 1, 1, 1]);
    let m18 = m17.insert("Gm6"@, seq![0i8, 3, 1, 0, 0, 3, 0]);
    let m19 = m18.insert("Gm7"@, seq![3i8, 1, 3, 1, 1, 1, 1]);
    let m20 = m19.insert("Gmaj7"@, seq![0i8, 3, 2, 0, 0, 0, 2]);
    let m21 = m20.insert("Gsus4"@, seq![0i8, 3, 3, 0, 0, 3, 3]);
    let m22 = m21.insert("G#"@, seq![4i8, 1, 3, 3, 2, 1, 1]);
    let m23 = m22.insert("G#7"@, seq![4i8, 1, 3, 1, 2, 1, 1]);
    let m24 = m23.insert("G#dim"@, seq![4i8, 1, 2, 3, 1, -1i8, -1i8]);
    let m25 = m24.insert("G#m"@, seq![4i8, 1, 3, 3, 1, 1, 1]);
    let m26 = m25.insert("G#m7"@, seq![4i8, 1, 3, 1, 1, 1, 1]);
    assert(guitar_table() == m26);
    assert forall|n: Seq<char>|
        (#[trigger] guitar_table().contains_key(n) <==> guitar_name(n)) && ((
        #[trigger] guitar_name(n)) ==> guitar_table()[n] == guitar_fingering(n)) by {
        lemma_guitar_flat_c();
        assert(m0.contains_key(n) <==> guitar_name_c(n));
        if guitar_name_c(n) {
            assert(m0[n] == guitar_fingering_c(n));
        }
        assert(m1.contains_key(n) <==> n == "F#"@ || m0.contains_key(n));
        assert(n == "F#"@ ==> m1[n] == seq![2i8, 1, 3, 3, 2, 1, 1]);
        assert(n != "F#"@ ==> m1[n] == m0[n]);
        assert(m2.contains_key(n) <==> n == "F#7"@ || m1.contains_key(n));
        assert(n == "F#7"@ ==> m2[n] == seq![2i8, 1, 3, 1, 2, 1, 1]);
        assert(n != "F#7"@ ==> m2[n] == m1[n]);
        assert(m3.contains_key(n) <==> n == "F#dim"@ || m2.contains_key(n));
        assert(n == "F#dim"@ ==> m3[n] == seq![0i8, -1i8, -1i8, 4, 2, 1, 2]);
        assert(n != "F#dim"@ ==> m3[n] == m2[n]);
        assert(m4.contains_key(n) <==> n == "F#dim*"@ || m3.contains_key(n));
        assert(n == "F#dim*"@ ==> m4[n] == seq![0i8, 2, 3, 4, 2, -1i8, -1i8]);
        assert(n != "F#dim*"@ ==> m4[n] == m3[n]);
        assert(m5.contains_key(n) <==> n == "F#m"@ || m4.contains_key(n));
        assert(n == "F#m"@ ==> m5[n] == seq![2i8, 1, 3, 3, 1, 1, 1]);
        assert(n != "F#m"@ ==> m5[n] == m4[n]);
        assert(m6.contains_key(n) <==> n == "F#m7"@ || m5.contains_key(n));
        assert(n == "F#m7"@ ==> m6[n] == seq![2i8, 1, 3, 1, 1, 1, 1]);
        assert(n != "F#m7"@ ==> m6[n] == m5[n]);
        assert(m7.contains_key(n) <==> n == "G"@ || m6.contains_key(n));
        assert(n == "G"@ ==> m7[n] == seq![0i8, 3, 2, 0, 0, 0, 3]);
        assert(n != "G"@ ==> m7[n] == m6[n]);
        assert(m8.contains_key(n) <==> n == "G+"@ || m7.contains_key(n));
        assert(n == "G+"@ ==> m8[n] == seq![0i8, 3, 2, 1, 0, 0, 3]);
        assert(n != "G+"@ ==> m8[n] == m7[n]);
        assert(m9.contains_key(n) <==> n == "G/A"@ || m8.contains_key(n));
        assert(n == "G/A"@ ==> m9[n] == seq![0i8, -1i8, 0, 0, 0, 0, 3]);
        assert(n != "G/A"@ ==> m9[n] == m8[n]);
        assert(m10.contains_key(n) <==> n == "G/B"@ || m9.contains_key(n));
        assert(n == "G/B"@ ==> m10[n] == seq![0i8, -1i8, 2, 0, 0, 3, 3]);
        assert(n != "G/B"@ ==> m10[n] == m9[n]);
        assert(m11.contains_key(n) <==> n == "G/C"@ || m10.contains_key(n));
        assert(n == "G/C"@ ==> m11[n] == seq![0i8, -1i8, 3, 0, 0, 0, 3]);
        assert(n != "G/C"@ ==> m11[n] == m10[n]);
        assert(m12.contains_key(n) <==> n == "G/F"@ || m11.contains_key(n));
        assert(n == "G/F"@ ==> m12[n] == seq![0i8, 1, 2, 0, 0, 3, 3]);
        assert(n != "G/F"@ ==> m12[n] == m11[n]);
        assert(m13.contains_key(n) <==> n == "G/F#"@ || m12.contains_key(n));
        assert(n == "G/F#"@ ==> m13[n] == seq![0i8, 2, 2, 0, 0, 0, 3]);
        assert(n != "G/F#"@ ==> m13[n] == m12[n]);
        assert(m14.contains_key(n) <==> n == "G6"@ || m13.contains_key(n));
        assert(n == "G6"@ ==> m14[n] == seq![0i8, 3, 2, 0, 0, 0, 0]);
        assert(n != "G6"@ ==> m14[n] == m13[n]);
        assert(m15.contains_key(n) <==> n == "G7"@ || m14.contains_key(n));
        assert(n == "G7"@ ==> m15[n] == seq![0i8, 3, 2, 0, 0, 0, 1]);
        assert(n != "G7"@ ==> m15[n] == m14[n]);
        assert(m16.contains_key(n) <==> n == "G7/D"@ || m15.contains_key(n));
        assert(n == "G7/D"@ ==> m16[n] == seq![0i8, -1i8, -1i8, 0, 0, 0, 1]);
        assert(n != "G7/D"@ ==> m16[n] == m15[n]);
        assert(m17.contains_key(n) <==> n == "Gm"@ || m16.contains_key(n));
        assert(n == "Gm"@ ==> m17[n] == seq![3i8, 1, 3, 3, 1, 1, 1]);
        assert(n != "Gm"@ ==> m17[n] == m16[n]);
        assert(m18.contains_key(n) <==> n == "Gm6"@ || m17.contains_key(n));
        assert(n == "Gm6"@ ==> m18[n] == seq![0i8, 3, 1, 0, 0, 3, 0]);
        assert(n != "Gm6"@ ==> m18[n] == m17[n]);
        assert(m19.contains_key(n) <==> n == "Gm7"@ || m18.contains_key(n));
        assert(n == "Gm7"@ ==> m19[n] == seq![3i8, 1, 3, 1, 1, 1, 1]);
        assert(n != "Gm7"@ ==> m19[n] == m18[n]);
        assert(m20.contains_key(n) <==> n == "Gmaj7"@ || m19.contains_key(n));
        assert(n == "Gmaj7"@ ==> m20[n] == seq![0i8, 3, 2, 0, 0, 0, 2]);
        assert(n != "Gmaj7"@ ==> m20[n] == m19[n]);
        assert(m21.contains_key(n) <==> n == "Gsus4"@ || m20.contains_key(n));
        assert(n == "Gsus4"@ ==> m21[n] == seq![0i8, 3, 3, 0, 0, 3, 3]);
        assert(n != "Gsus4"@ ==> m21[n] == m20[n]);
        assert(m22.contains_key(n) <==> n == "G#"@ || m21.contains_key(n));
        assert(n == "G#"@ ==> m22[n] == seq![4i8, 1, 3, 3, 2, 1, 1]);
        assert(n != "G#"@ ==> m22[n] == m21[n]);
        assert(m23.contains_key(n) <==> n == "G#7"@ || m22.contains_key(n));
        assert(n == "G#7"@ ==> m23[n] == seq![4i8, 1, 3, 1, 2, 1, 1]);
        assert(n != "G#7"@ ==> m23[n] == m22[n]);
        assert(m24.contains_key(n) <==> n == "G#dim"@ || m23.contains_key(n));
        assert(n == "G#dim"@ ==> m24[n] == seq![4i8, 1, 2, 3, 1, -1i8, -1i8]);
        assert(n != "G#dim"@ ==> m24[n] == m23[n]);
        assert(m25.contains_key(n) <==> n == "G#m"@ || m24.contains_key(n));
        assert(n == "G#m"@ ==> m25[n] == seq![4i8, 1, 3, 3, 1, 1, 1]);
        assert(n != "G#m"@ ==> m25[n] == m24[n]);
        assert(m26.contains_key(n) <==> n == "G#m7"@ || m25.contains_key(n));
        assert(n == "G#m7"@ ==> m26[n] == seq![4i8, 1, 3, 1, 1, 1, 1]);
        assert(n != "G#m7"@ ==> m26[n] == m25[n]);
    }
    assert forall|n: Seq<char>| #[trigger] guitar_name(n) implies guitar_table()[n]
        == guitar_fingering(n) by {
        assert(guitar_table().contains_key(n) <==> guitar_name(n));
    }
}

/// How the guitar table's names are spelt, so that lookups of a
/// concrete name can tell them apart.
pub proof fn lemma_guitar_name_spellings()
    ensures
        "Ab"@.len() == 2 && "Ab"@[0] == 'A' && "Ab"@[1] == 'b',
        "Ab6"@.len() == 3 && "Ab6"@[0] == 'A' && "Ab6"@[1] == 'b' && "Ab6"@[2] == '6',
        "Ab7"@.len() == 3 && "Ab7"@[0] == 'A' && "Ab7"@[1] == 'b' && "Ab7"@[2] == '7',
        "Abm"@.len() == 3 && "Abm"@[0] == 'A' && "Abm"@[1] == 'b' && "Abm"@[2] == 'm',
        "Abm7"@.len() == 4 && "Abm7"@[0] == 'A' && "Abm7"@[1] == 'b' && "Abm7"@[2] == 'm' && "Abm7"@[3] == '7',
        "Abmaj7"@.len() == 6 && "Abmaj7"@[0] == 'A' && "Abmaj7"@[1] == 'b' && "Abmaj7"@[2] == 'm' && "Abmaj7"@[3] == 'a' && "Abmaj7"@[4] == 'j' && "Abmaj7"@[5] == '7',
        "A"@.len() == 1 && "A"@[0] == 'A',
        "A/E"@.len() == 3 && "A/E"@[0] == 'A' && "A/E"@[1] == '/' && "A/E"@[2] == 'E',
        "A6"@.len() == 2 && "A6"@[0] == 'A' && "A6"@[1] == '6',
        "A7"@.len() == 2 && "A7"@[0] == 'A' && "A7"@[1] == '7',
        "A7/C#"@.len() == 5 && "A7/C#"@[0] == 'A' && "A7/C#"@[1] == '7' && "A7/C#"@[2] == '/' && "A7/C#"@[3] == 'C' && "A7/C#"@[4] == '#',
        "A9"@.len() == 2 && "A9"@[0] == 'A' && "A9"@[1] == '9',
        "Am"@.len() == 2 && "Am"@[0] == 'A' && "Am"@[1] == 'm',
        "Am/C"@.len() == 4 && "Am/C"@[0] == 'A' && "Am/C"@[1] == 'm' && "Am/C"@[2] == '/' && "Am/C"@[3] == 'C',
        "Am/E"@.len() == 4 && "Am/E"@[0] == 'A' && "Am/E"@[1] == 'm' && "Am/E"@[2] == '/' && "Am/E"@[3] == 'E',
        "Am/F#"@.len() == 5 && "Am/F#"@[0] == 'A' && "Am/F#"@[1] == 'm' && "Am/F#"@[2] == '/' && "Am/F#"@[3] == 'F' && "Am/F#"@[4] == '#',
        "Am/G"@.len() == 4 && "Am/G"@[0] == 'A' && "Am/G"@[1] == 'm' && "Am/G"@[2] == '/' && "Am/G"@[3] == 'G',
        "Am6"@.len() == 3 && "Am6"@[0] == 'A' && "Am6"@[1] == 'm' && "Am6"@[2] == '6',
        "Am7"@.len() == 3 && "Am7"@[0] == 'A' && "Am7"@[1] == 'm' && "Am7"@[2] == '7',
        "Am7/G"@.len() == 5 && "Am7/G"@[0] == 'A' && "Am7/G"@[1] == 'm' && "Am7/G"@[2] == '7' && "Am7/G"@[3] == '/' && "Am7/G"@[4] == 'G',
        "Am9"@.len() == 3 && "Am9"@[0] == 'A' && "Am9"@[1] == 'm' && "Am9"@[2] == '9',
        "Amaj7"@.len() == 5 && "Amaj7"@[0] == 'A' && "Amaj7"@[1] == 'm' && "Amaj7"@[2] == 'a' && "Amaj7"@[3] == 'j' && "Amaj7"@[4] == '7',
        "Asus"@.len() == 4 && "Asus"@[0] == 'A' && "Asus"@[1] == 's' && "Asus"@[2] == 'u' && "Asus"@[3] == 's',
        "Asus2"@.len() == 5 && "Asus2"@[0] == 'A' && "Asus2"@[1] == 's' && "Asus2"@[2] == 'u' && "Asus2"@[3] == 's' && "Asus2"@[4] == '2',
        "Asus4"@.len() == 5 && "Asus4"@[0] == 'A' && "Asus4"@[1] == 's' && "Asus4"@[2] == 'u' && "Asus4"@[3] == 's' && "Asus4"@[4] == '4',
        "Bb"@.len() == 2 && "Bb"@[0] == 'B' && "Bb"@[1] == 'b',
        "Bbm"@.len() == 3 && "Bbm"@[0] == 'B' && "Bbm"@[1] == 'b' && "Bbm"@[2] == 'm',
        "Bb7"@.len() == 3 && "Bb7"@[0] == 'B' && "Bb7"@[1] == 'b' && "Bb7"@[2] == '7',
        "Bbm7"@.len() == 4 && "Bbm7"@[0] == 'B' && "Bbm7"@[1] == 'b' && "Bbm7"@[2] == 'm' && "Bbm7"@[3] == '7',
        "Bb9'"@.len() == 4 && "Bb9'"@[0] == 'B' && "Bb9'"@[1] == 'b' && "Bb9'"@[2] == '9' && "Bb9'"@[3] == '\'',
        "Bb/E"@.len() == 4 && "Bb/E"@[0] == 'B' && "Bb/E"@[1] == 'b' && "Bb/E"@[2] == '/' && "Bb/E"@[3] == 'E',
        "Bb/D"@.len() == 4 && "Bb/D"@[0] == 'B' && "Bb/D"@[1] == 'b' && "Bb/D"@[2] == '/' && "Bb/D"@[3] == 'D',
        "B"@.len() == 1 && "B"@[0] == 'B',
        "B6"@.len() == 2 && "B6"@[0] == 'B' && "B6"@[1] == '6',
        "B7"@.len() == 2 && "B7"@[0] == 'B' && "B7"@[1] == '7',
        "Bdim"@.len() == 4 && "Bdim"@[0] == 'B' && "Bdim"@[1] == 'd' && "Bdim"@[2] == 'i' && "Bdim"@[3] == 'm',
        "Bm"@.len() == 2 && "Bm"@[0] == 'B' && "Bm"@[1] == 'm',
        "Bm/F#"@.len() == 5 && "Bm/F#"@[0] == 'B' && "Bm/F#"@[1] == 'm' && "Bm/F#"@[2] == '/' && "Bm/F#"@[3] == 'F' && "Bm/F#"@[4] == '#',
        "Bm/G#"@.len() == 5 && "Bm/G#"@[0] == 'B' && "Bm/G#"@[1] == 'm' && "Bm/G#"@[2] == '/' && "Bm/G#"@[3] == 'G' && "Bm/G#"@[4] == '#',
        "Bm7"@.len() == 3 && "Bm7"@[0] == 'B' && "Bm7"@[1] == 'm' && "Bm7"@[2] == '7',
        "Bmaj7"@.len() == 5 && "Bmaj7"@[0] == 'B' && "Bmaj7"@[1] == 'm' && "Bmaj7"@[2] == 'a' && "Bmaj7"@[3] == 'j' && "Bmaj7"@[4] == '7',
        "Bsus4"@.len() == 5 && "Bsus4"@[0] == 'B' && "Bsus4"@[1] == 's' && "Bsus4"@[2] == 'u' && "Bsus4"@[3] == 's' && "Bsus4"@[4] == '4',
        "C"@.len() == 1 && "C"@[0] == 'C',
        "C/B"@.len() == 3 && "C/B"@[0] == 'C' && "C/B"@[1] == '/' && "C/B"@[2] == 'B',
        "C/D"@.len() == 3 && "C/D"@[0] == 'C' && "C/D"@[1] == '/' && "C/D"@[2] == 'D',
        "C/E"@.len() == 3 && "C/E"@[0] == 'C' && "C/E"@[1] == '/' && "C/E"@[2] == 'E',
        "C/G"@.len() == 3 && "C/G"@[0] == 'C' && "C/G"@[1] == '/' && "C/G"@[2] == 'G',
        "C6"@.len() == 2 && "C6"@[0] == 'C' && "C6"@[1] == '6',
        "C7"@.len() == 2 && "C7"@[0] == 'C' && "C7"@[1] == '7',
        "C7sus4"@.len() == 6 && "C7sus4"@[0] == 'C' && "C7sus4"@[1] == '7' && "C7sus4"@[2] == 's' && "C7sus4"@[3] == 'u' && "C7sus4"@[4] == 's' && "C7sus4"@[5] == '4',
        "Cdim"@.len() == 4 && "Cdim"@[0] == 'C' && "Cdim"@[1] == 'd' && "Cdim"@[2] == 'i' && "Cdim"@[3] == 'm',
        "Cm"@.len() == 2 && "Cm"@[0] == 'C' && "Cm"@[1] == 'm',
        "Cm7"@.len() == 3 && "Cm7"@[0] == 'C' && "Cm7"@[1] == 'm' && "Cm7"@[2] == '7',
        "Cmaj7"@.len() == 5 && "Cmaj7"@[0] == 'C' && "Cmaj7"@[1] == 'm' && "Cmaj7"@[2] == 'a' && "Cmaj7"@[3] == 'j' && "Cmaj7"@[4] == '7',
        "Csus4"@.len() == 5 && "Csus4"@[0] == 'C' && "Csus4"@[1] == 's' && "Csus4"@[2] == 'u' && "Csus4"@[3] == 's' && "Csus4"@[4] == '4',
        "C#"@.len() == 2 && "C#"@[0] == 'C' && "C#"@[1] == '#',
        "C#7"@.len() == 3 && "C#7"@[0] == 'C' && "C#7"@[1] == '#' && "C#7"@[2] == '7',
        "C#m"@.len() == 3 && "C#m"@[0] == 'C' && "C#m"@[1] == '#' && "C#m"@[2] == 'm',
        "C#m7"@.len() == 4 && "C#m7"@[0] == 'C' && "C#m7"@[1] == '#' && "C#m7"@[2] == 'm' && "C#m7"@[3] == '7',
        "C#sus4"@.len() == 6 && "C#sus4"@[0] == 'C' && "C#sus4"@[1] == '#' && "C#sus4"@[2] == 's' && "C#sus4"@[3] == 'u' && "C#sus4"@[4] == 's' && "C#sus4"@[5] == '4',
        "Db"@.len() == 2 && "Db"@[0] == 'D' && "Db"@[1] == 'b',
        "D"@.len() == 1 && "D"@[0] == 'D',
        "D/A"@.len() == 3 && "D/A"@[0] == 'D' && "D/A"@[1] == '/' && "D/A"@[2] == 'A',
        "D/F#"@.len() == 4 && "D/F#"@[0] == 'D' && "D/F#"@[1] == '/' && "D/F#"@[2] == 'F' && "D/F#"@[3] == '#',
        "D7"@.len() == 2 && "D7"@[0] == 'D' && "D7"@[1] == '7',
        "Dm"@.len() == 2 && "Dm"@[0] == 'D' && "Dm"@[1] == 'm',
        "Dm7"@.len() == 3 && "Dm7"@[0] == 'D' && "Dm7"@[1] == 'm' && "Dm7"@[2] == '7',
        "Dmaj7"@.len() == 5 && "Dmaj7"@[0] == 'D' && "Dmaj7"@[1] == 'm' && "Dmaj7"@[2] == 'a' && "Dmaj7"@[3] == 'j' && "Dmaj7"@[4] == '7',
        "Dsus4"@.len() == 5 && "Dsus4"@[0] == 'D' && "Dsus4"@[1] == 's' && "Dsus4"@[2] == 'u' && "Dsus4"@[3] == 's' && "Dsus4"@[4] == '4',
        "D#dim"@.len() == 5 && "D#dim"@[0] == 'D' && "D#dim"@[1] == '#' && "D#dim"@[2] == 'd' && "D#dim"@[3] == 'i' && "D#dim"@[4] == 'm',
        "Eb"@.len() == 2 && "Eb"@[0] == 'E' && "Eb"@[1] == 'b',
        "Eb7"@.len() == 3 && "Eb7"@[0] == 'E' && "Eb7"@[1] == 'b' && "Eb7"@[2] == '7',
        "Ebm"@.len() == 3 && "Ebm"@[0] == 'E' && "Ebm"@[1] == 'b' && "Ebm"@[2] == 'm',
        "E"@.len() == 1 && "E"@[0] == 'E',
        "E/G#"@.len() == 4 && "E/G#"@[0] == 'E' && "E/G#"@[1] == '/' && "E/G#"@[2] == 'G' && "E/G#"@[3] == '#',
        "E7"@.len() == 2 && "E7"@[0] == 'E' && "E7"@[1] == '7',
        "E9"@.len() == 2 && "E9"@[0] == 'E' && "E9"@[1] == '9',
        "Eadd9"@.len() == 5 && "Eadd9"@[0] == 'E' && "Eadd9"@[1] == 'a' && "Eadd9"@[2] == 'd' && "Eadd9"@[3] == 'd' && "Eadd9"@[4] == '9',
        "Em"@.len() == 2 && "Em"@[0] == 'E' && "Em"@[1] == 'm',
        "Em6"@.len() == 3 && "Em6"@[0] == 'E' && "Em6"@[1] == 'm' && "Em6"@[2] == '6',
        "Em7"@.len() == 3 && "Em7"@[0] == 'E' && "Em7"@[1] == 'm' && "Em7"@[2] == '7',
        "Emaj7"@.len() == 5 && "Emaj7"@[0] == 'E' && "Emaj7"@[1] == 'm' && "Emaj7"@[2] == 'a' && "Emaj7"@[3] == 'j' && "Emaj7"@[4] == '7',
        "Esus4"@.len() == 5 && "Esus4"@[0] == 'E' && "Esus4"@[1] == 's' && "Esus4"@[2] == 'u' && "Esus4"@[3] == 's' && "Esus4"@[4] == '4',
        "F"@.len() == 1 && "F"@[0] == 'F',
        "F/A"@.len() == 3 && "F/A"@[0] == 'F' && "F/A"@[1] == '/' && "F/A"@[2] == 'A',
        "F7"@.len() == 2 && "F7"@[0] == 'F' && "F7"@[1] == '7',
        "Fm"@.len() == 2 && "Fm"@[0] == 'F' && "Fm"@[1] == 'm',
        "Fmaj7"@.len() == 5 && "Fmaj7"@[0] == 'F' && "Fmaj7"@[1] == 'm' && "Fmaj7"@[2] == 'a' && "Fmaj7"@[3] == 'j' && "Fmaj7"@[4] == '7',
        "Fsus4"@.len() == 5 && "Fsus4"@[0] == 'F' && "Fsus4"@[1] == 's' && "Fsus4"@[2] == 'u' && "Fsus4"@[3] == 's' && "Fsus4"@[4] == '4',
        "F#"@.len() == 2 && "F#"@[0] == 'F' && "F#"@[1] == '#',
        "F#7"@.len() == 3 && "F#7"@[0] == 'F' && "F#7"@[1] == '#' && "F#7"@[2] == '7',
        "F#dim"@.len() == 5 && "F#dim"@[0] == 'F' && "F#dim"@[1] == '#' && "F#dim"@[2] == 'd' && "F#dim"@[3] == 'i' && "F#dim"@[4] == 'm',
        "F#dim*"@.len() == 6 && "F#dim*"@[0] == 'F' && "F#dim*"@[1] == '#' && "F#dim*"@[2] == 'd' && "F#dim*"@[3] == 'i' && "F#dim*"@[4] == 'm' && "F#dim*"@[5] == '*',
        "F#m"@.len() == 3 && "F#m"@[0] == 'F' && "F#m"@[1] == '#' && "F#m"@[2] == 'm',
        "F#m7"@.len() == 4 && "F#m7"@[0] == 'F' && "F#m7"@[1] == '#' && "F#m7"@[2] == 'm' && "F#m7"@[3] == '7',
        "G"@.len() == 1 && "G"@[0] == 'G',
        "G+"@.len() == 2 && "G+"@[0] == 'G' && "G+"@[1] == '+',
        "G/A"@.len() == 3 && "G/A"@[0] == 'G' && "G/A"@[1] == '/' && "G/A"@[2] == 'A',
        "G/B"@.len() == 3 && "G/B"@[0] == 'G' && "G/B"@[1] == '/' && "G/B"@[2] == 'B',
        "G/C"@.len() == 3 && "G/C"@[0] == 'G' && "G/C"@[1] == '/' && "G/C"@[2] == 'C',
        "G/F"@.len() == 3 && "G/F"@[0] == 'G' && "G/F"@[1] == '/' && "G/F"@[2] == 'F',
        "G/F#"@.len() == 4 && "G/F#"@[0] == 'G' && "G/F#"@[1] == '/' && "G/F#"@[2] == 'F' && "G/F#"@[3] == '#',
        "G6"@.len() == 2 && "G6"@[0] == 'G' && "G6"@[1] == '6',
        "G7"@.len() == 2 && "G7"@[0] == 'G' && "G7"@[1] == '7',
        "G7/D"@.len() == 4 && "G7/D"@[0] == 'G' && "G7/D"@[1] == '7' && "G7/D"@[2] == '/' && "G7/D"@[3] == 'D',
        "Gm"@.len() == 2 && "Gm"@[0] == 'G' && "Gm"@[1] == 'm',
        "Gm6"@.len() == 3 && "Gm6"@[0] == 'G' && "Gm6"@[1] == 'm' && "Gm6"@[2] == '6',
        "Gm7"@.len() == 3 && "Gm7"@[0] == 'G' && "Gm7"@[1] == 'm' && "Gm7"@[2] == '7',
        "Gmaj7"@.len() == 5 && "Gmaj7"@[0] == 'G' && "Gmaj7"@[1] == 'm' && "Gmaj7"@[2] == 'a' && "Gmaj7"@[3] == 'j' && "Gmaj7"@[4] == '7',
        "Gsus4"@.len() == 5 && "Gsus4"@[0] == 'G' && "Gsus4"@[1] == 's' && "Gsus4"@[2] == 'u' && "Gsus4"@[3] == 's' && "Gsus4"@[4] == '4',
        "G#"@.len() == 2 && "G#"@[0] == 'G' && "G#"@[1] == '#',
        "G#7"@.len() == 3 && "G#7"@[0] == 'G' && "G#7"@[1] == '#' && "G#7"@[2] == '7',
        "G#dim"@.len() == 5 && "G#dim"@[0] == 'G' && "G#dim"@[1] == '#' && "G#dim"@[2] == 'd' && "G#dim"@[3] == 'i' && "G#dim"@[4] == 'm',
        "G#m"@.len() == 3 && "G#m"@[0] == 'G' && "G#m"@[1] == '#' && "G#m"@[2] == 'm',
        "G#m7"@.len() == 4 && "G#m7"@[0] == 'G' && "G#m7"@[1] == '#' && "G#m7"@[2] == 'm' && "G#m7"@[3] == '7',
{
    reveal_strlit("Ab");
    reveal_strlit("Ab6");
    reveal_strlit("Ab7");
    reveal_strlit("Abm");
    reveal_strlit("Abm7");
    reveal_strlit("Abmaj7");
    reveal_strlit("A");
    reveal_strlit("A/E");
    reveal_strlit("A6");
    reveal_strlit("A7");
    reveal_strlit("A7/C#");
    reveal_strlit("A9");
    reveal_strlit("Am");
    reveal_strlit("Am/C");
    reveal_strlit("Am/E");
    reveal_strlit("Am/F#");
    reveal_strlit("Am/G");
    reveal_strlit("Am6");
    reveal_strlit("Am7");
    reveal_strlit("Am7/G");
    reveal_strlit("Am9");
    reveal_strlit("Amaj7");
    reveal_strlit("Asus");
    reveal_strlit("Asus2");
    reveal_strlit("Asus4");
    reveal_strlit("Bb");
    reveal_strlit("Bbm");
    reveal_strlit("Bb7");
    reveal_strlit("Bbm7");
    reveal_strlit("Bb9'");
    reveal_strlit("Bb/E");
    reveal_strlit("Bb/D");
    reveal_strlit("B");
    reveal_strlit("B6");
    reveal_strlit("B7");
    reveal_strlit("Bdim");
    reveal_strlit("Bm");
    reveal_strlit("Bm/F#");
    reveal_strlit("Bm/G#");
    reveal_strlit("Bm7");
    reveal_strlit("Bmaj7");
    reveal_strlit("Bsus4");
    reveal_strlit("C");
    reveal_strlit("C/B");
    reveal_strlit("C/D");
    reveal_strlit("C/E");
    reveal_strlit("C/G");
    reveal_strlit("C6");
    reveal_strlit("C7");
    reveal_strlit("C7sus4");
    reveal_strlit("Cdim");
    reveal_strlit("Cm");
    reveal_strlit("Cm7");
    reveal_strlit("Cmaj7");
    reveal_strlit("Csus4");
    reveal_strlit("C#");
    reveal_strlit("C#7");
    reveal_strlit("C#m");
    reveal_strlit("C#m7");
    reveal_strlit("C#sus4");
    reveal_strlit("Db");
    reveal_strlit("D");
    reveal_strlit("D/A");
    reveal_strlit("D/F#");
    reveal_strlit("D7");
    reveal_strlit("Dm");
    reveal_strlit("Dm7");
    reveal_strlit("Dmaj7");
    reveal_strlit("Dsus4");
    reveal_strlit("D#dim");
    reveal_strlit("Eb");
    reveal_strlit("Eb7");
    reveal_strlit("Ebm");
    reveal_strlit("E");
    reveal_strlit("E/G#");
    reveal_strlit("E7");
    reveal_strlit("E9");
    reveal_strlit("Eadd9");
    reveal_strlit("Em");
    reveal_strlit("Em6");
    reveal_strlit("Em7");
    reveal_strlit("Emaj7");
    reveal_strlit("Esus4");
    reveal_strlit("F");
    reveal_strlit("F/A");
    reveal_strlit("F7");
    reveal_strlit("Fm");
    reveal_strlit("Fmaj7");
    reveal_strlit("Fsus4");
    reveal_strlit("F#");
    reveal_strlit("F#7");
    reveal_strlit("F#dim");
    reveal_strlit("F#dim*");
    reveal_strlit("F#m");
    reveal_strlit("F#m7");
    reveal_strlit("G");
    reveal_strlit("G+");
    reveal_strlit("G/A");
    reveal_strlit("G/B");
    reveal_strlit("G/C");
    reveal_strlit("G/F");
    reveal_strlit("G/F#");
    reveal_strlit("G6");
    reveal_strlit("G7");
    reveal_strlit("G7/D");
    reveal_strlit("Gm");
    reveal_strlit("Gm6");
    reveal_strlit("Gm7");
    reveal_strlit("Gmaj7");
    reveal_strlit("Gsus4");
    reveal_strlit("G#");
    reveal_strlit("G#7");
    reveal_strlit("G#dim");
    reveal_strlit("G#m");
    reveal_strlit("G#m7");
}

/// A name the built-in mandolin table binds.
pub open spec fn mandolin_name(n: Seq<char>) -> bool {
    ||| n == "Ab"@
    ||| n == "A"@
    ||| n == "A7"@
    ||| n == "Am"@
    ||| n == "Am7"@
    ||| n == "Bb"@
    ||| n == "B"@
    ||| n == "B7"@
    ||| n == "Bm"@
    ||| n == "Bm7"@
    ||| n == "C"@
    ||| n == "C7"@
    ||| n == "Cm"@
    ||| n == "Cm7"@
    ||| n == "Cmaj7"@
    ||| n == "C/G"@
    ||| n == "C#"@
    ||| n == "C#7"@
    ||| n == "C#m"@
    ||| n == "D"@
    ||| n == "D7"@
    ||| n == "Dm"@
    ||| n == "Dm7"@
    ||| n == "Eb"@
    ||| n == "Eb7"@
    ||| n == "E"@
    ||| n == "E7"@
    ||| n == "Em"@
    ||| n == "Em7"@
    ||| n == "F"@
    ||| n == "F7"@
    ||| n == "Fm"@
    ||| n == "Fmaj7"@
    ||| n == "F#"@
    ||| n == "F#7"@
    ||| n == "F#m"@
    ||| n == "F#m7"@
    ||| n == "G"@
    ||| n == "G7"@
    ||| n == "Gm"@
    ||| n == "Gm7"@
    ||| n == "G#"@
}

/// The fingering the mandolin table stores for a bound name; where a
/// name is bound twice, the later binding.
pub open spec fn mandolin_fingering(n: Seq<char>) -> Seq<i8> {
    if n == "G#"@ {
        seq![0i8, 8, 6, 3, 4]
    } else if n == "Gm7"@ {
        seq![0i8, 7, 5, 8, 6]
    } else if n == "Gm"@ {
        seq![0i8, 0, 0, 1, 3]
    } else if n == "G7"@ {
        seq![0i8, 5, 4, 6, 4]
    } else if n == "G"@ {
        seq![0i8, 0, 0, 2, 3]
    } else if n == "F#m7"@ {
        seq![0i8, 6, 4, 7, 5]
    } else if n == "F#m"@ {
        seq![0i8, 6, 4, 4, 5]
    } else if n == "F#7"@ {
        seq![0i8, 6, 4, 7, 6]
    } else if n == "F#"@ {
        seq![0i8, 6, 4, 1, 2]
    } else if n == "Fmaj7"@ {
        seq![0i8, 5, 3, 7, 5]
    } else if n == "Fm"@ {
        seq![0i8, 5, 3, 3, 4]
    } else if n == "F7"@ {
        seq![0i8, 5, 3, 6, 5]
    } else if n == "F"@ {
        seq![0i8, 5, 3, 0, 1]
    } else if n == "Em7"@ {
        seq![0i8, 4, 2, 5, 3]
    } else if n == "Em"@ {
        seq![0i8, 4, 2, 2, 3]
    } else if n == "E7"@ {
        seq![0i8, 7, 6, 7, -1i8]
    } else if n == "E"@ {
        seq![0i8, 4, 6, 7, -1i8]
    } else if n == "Eb7"@ {
        seq![0i8, 3, 1, 4, 3]
    } else if n == "Eb"@ {
        seq![0i8, 8, 5, 6, 3]
    } else if n == "Dm7"@ {
        seq![0i8, 5, 3, 5, -1i8]
    } else if n == "Dm"@ {
        seq![0i8, 7, 3, 5, -1i8]
    } else if n == "D7"@ {
        seq![0i8, 5, 4, 5, -1i8]
    } else if n == "D"@ {
        seq![0i8, 2, 0, 0, 2]
    } else if n == "C#m"@ {
        seq![0i8, 6, 2, 4, -1i8]
    } else if n == "C#7"@ {
        seq![0i8, 4, 3, 4, -1i8]
    } else if n == "C#"@ {
        seq![0i8, 6, 3, 4, 1]
    } else if n == "C/G"@ {
        seq![0i8, 0, 2, 3, 0]
    } else if n == "Cmaj7"@ {
        seq![0i8, 5, 2, 2, 3]
    } else if n == "Cm7"@ {
        seq![0i8, 3, 1, 3, -1i8]
    } else if n == "Cm"@ {
        seq![0i8, 5, 1, 3, -1i8]
    } else if n == "C7"@ {
        seq![0i8, 3, 2, 3, -1i8]
    } else if n == "C"@ {
        seq![0i8, 5, 2, 3, 0]
    } else if n == "Bm7"@ {
        seq![0i8, 4, 4, 5, 5]
    } else if n == "Bm"@ {
        seq![0i8, 4, 4, 5, 7]
    } else if n == "B7"@ {
        seq![0i8, 2, 1, 2, -1i8]
    } else if n == "B"@ {
        seq![0i8, 4, 4, 6, 7]
    } else if n == "Bb"@ {
        seq![0i8, 3, 3, 5, 7]
    } else if n == "Am7"@ {
        seq![0i8, 0, 2, 3, 0]
    } else if n == "Am"@ {
        seq![0i8, 9, 7, 3, 5]
    } else if n == "A7"@ {
        seq![0i8, 6, 5, 7, 5]
    } else if n == "A"@ {
        seq![0i8, 9, 7, 4, 5]
    } else if n == "Ab"@ {
        seq![0i8, 1, 1, 3, 4]
    } else {
        Seq::empty()
    }
}

/// The mandolin table, spelled flat: it binds exactly the mandolin
/// names, each to its stored fingering.
#[verifier::rlimit(100)]
#[verifier::spinoff_prover]
pub proof fn lemma_mandolin_table_flat()
    ensures
        forall|n: Seq<char>| #[trigger] mandolin_table().contains_key(n) <==> mandolin_name(n),
        forall|n: Seq<char>| #[trigger] mandolin_name(n) ==> mandolin_table()[n] == mandolin_fingering(n),
{
    let m0 = Map::<Seq<char>, Seq<i8>>::empty();
    let m1 = m0.insert("Ab"@, seq![0i8, 1, 1, 3, 4]);
    let m2 = m1.insert("A"@, seq![0i8, 9, 7, 4, 5]);
    let m3 = m2.insert("A7"@, seq![0i8, 6, 5, 7, 5]);
    let m4 = m3.insert("Am"@, seq![0i8, 9, 7, 3, 5]);
    let m5 = m4.insert("Am7"@, seq![0i8, 0, 2, 3, 0]);
    let m6 = m5.insert("Bb"@, seq![0i8, 3, 3, 5, 7]);
    let m7 = m6.insert("B"@, seq![0i8, 4, 4, 6, 7]);
    let m8 = m7.insert("B7"@, seq![0i8, 2, 1, 2, -1i8]);
    let m9 = m8.insert("Bm"@, seq![0i8, 4, 4, 5, 7]);
    let m10 = m9.insert("Bm7"@, seq![0i8, 4, 4, 5, 5]);
    let m11 = m10.insert("C"@, seq![0i8, 5, 2, 3, 0]);
    let m12 = m11.insert("C7"@, seq![0i8, 3, 2, 3, -1i8]);
    let m13 = m12.insert("Cm"@, seq![0i8, 5, 1, 3, -1i8]);
    let m14 = m13.insert("Cm7"@, seq![0i8, 3, 1, 3, -1i8]);
    let m15 = m14.insert("Cmaj7"@, seq![0i8, 5, 2, 2, 3]);
    let m16 = m15.insert("C/G"@, seq![0i8, 0, 2, 3, 0]);
    let m17 = m16.insert("C#"@, seq![0i8, 6, 3, 4, 1]);
    let m18 = m17.insert("C#7"@, seq![0i8, 4, 3, 4, -1i8]);
    let m19 = m18.insert("C#m"@, seq![0i8, 6, 2, 4, -1i8]);
    let m20 = m19.insert("D"@, seq![0i8, 2, 0, 0, 2]);
    let m21 = m20.insert("D7"@, seq![0i8, 5, 4, 5, -1i8]);
    let m22 = m21.insert("Dm"@, seq![0i8, 7, 3, 5, -1i8]);
    let m23 = m22.insert("Dm7"@, seq![0i8, 5, 3, 5, -1i8]);
    let m24 = m23.insert("Eb"@, seq![0i8, 8, 5, 6, 3]);
    let m25 = m24.insert("Eb7"@, seq![0i8, 3, 1, 4, 3]);
    let m26 = m25.insert("E"@, seq![0i8, 4, 6, 7, -1i8]);
    let m27 = m26.insert("E7"@, seq![0i8, 7, 6, 7, -1i8]);
    let m28 = m27.insert("Em"@, seq![0i8, 4, 2, 2, 3]);
    let m29 = m28.insert("Em7"@, seq![0i8, 4, 2, 5, 3]);
    let m30 = m29.insert("F"@, seq![0i8, 5, 3, 0, 1]);
    let m31 = m30.insert("F7"@, seq![0i8, 5, 3, 6, 5]);
    let m32 = m31.insert("Fm"@, seq![0i8, 5, 3, 3, 4]);
    let m33 = m32.insert("Fmaj7"@, seq![0i8, 5, 3, 7, 5]);
    let m34 = m33.insert("F#"@, seq![0i8, 6, 4, 1, 2]);
    let m35 = m34.insert("F#7"@, seq![0i8, 6, 4, 7, 6]);
    let m36 = m35.insert("F#m"@, seq![0i8, 6, 4, 4, 5]);
    let m37 = m36.insert("F#m7"@, seq![0i8, 6, 4, 7, 5]);
    let m38 = m37.insert("G"@, seq![0i8, 0, 0, 2, 3]);
    let m39 = m38.insert("G7"@, seq![0i8, 5, 4, 6, 4]);
    let m40 = m39.insert("Gm"@, seq![0i8, 0, 0, 1, 3]);
    let m41 = m40.insert("Gm7"@, seq![0i8, 7, 5, 8, 6]);
    let m42 = m41.insert("G#"@, seq![0i8, 8, 6, 3, 4]);
    assert(mandolin_table() == m42);
    assert forall|n: Seq<char>|
        (#[trigger] mandolin_table().contains_key(n) <==> mandolin_name(n)) && (mandolin_name(n)
            ==> mandolin_table()[n] == mandolin_fingering(n)) by {
        assert(!m0.contains_key(n));
        assert(m1.contains_key(n) <==> n == "Ab"@ || m0.contains_key(n));
        assert(n == "Ab"@ ==> m1[n] == seq![0i8, 1, 1, 3, 4]);
        assert(n != "Ab"@ && m0.contains_key(n) ==> m1[n] == m0[n]);
        assert(m2.contains_key(n) <==> n == "A"@ || m1.contains_key(n));
        assert(n == "A"@ ==> m2[n] == seq![0i8, 9, 7, 4, 5]);
        assert(n != "A"@ && m1.contains_key(n) ==> m2[n] == m1[n]);
        assert(m3.contains_key(n) <==> n == "A7"@ || m2.contains_key(n));
        assert(n == "A7"@ ==> m3[n] == seq![0i8, 6, 5, 7, 5]);
        assert(n != "A7"@ && m2.contains_key(n) ==> m3[n] == m2[n]);
        assert(m4.contains_key(n) <==> n == "Am"@ || m3.contains_key(n));
        assert(n == "Am"@ ==> m4[n] == seq![0i8, 9, 7, 3, 5]);
        assert(n != "Am"@ && m3.contains_key(n) ==> m4[n] == m3[n]);
        assert(m5.contains_key(n) <==> n == "Am7"@ || m4.contains_key(n));
        assert(n == "Am7"@ ==> m5[n] == seq![0i8, 0, 2, 3, 0]);
        assert(n != "Am7"@ && m4.contains_key(n) ==> m5[n] == m4[n]);
        assert(m6.contains_key(n) <==> n == "Bb"@ || m5.contains_key(n));
        assert(n == "Bb"@ ==> m6[n] == seq![0i8, 3, 3, 5, 7]);
        assert(n != "Bb"@ && m5.contains_key(n) ==> m6[n] == m5[n]);
        assert(m7.contains_key(n) <==> n == "B"@ || m6.contains_key(n));
        assert(n == "B"@ ==> m7[n] == seq![0i8, 4, 4, 6, 7]);
        assert(n != "B"@ && m6.contains_key(n) ==> m7[n] == m6[n]);
        assert(m8.contains_key(n) <==> n == "B7"@ || m7.contains_key(n));
        assert(n == "B7"@ ==> m8[n] == seq![0i8, 2, 1, 2, -1i8]);
        assert(n != "B7"@ && m7.contains_key(n) ==> m8[n] == m7[n]);
        assert(m9.contains_key(n) <==> n == "Bm"@ || m8.contains_key(n));
        assert(n == "Bm"@ ==> m9[n] == seq![0i8, 4, 4, 5, 7]);
        assert(n != "Bm"@ && m8.contains_key(n) ==> m9[n] == m8[n]);
        assert(m10.contains_key(n) <==> n == "Bm7"@ || m9.contains_key(n));
        assert(n == "Bm7"@ ==> m10[n] == seq![0i8, 4, 4, 5, 5]);
        assert(n != "Bm7"@ && m9.contains_key(n) ==> m10[n] == m9[n]);
        assert(m11.contains_key(n) <==> n == "C"@ || m10.contains_key(n));
        assert(n == "C"@ ==> m11[n] == seq![0i8, 5, 2, 3, 0]);
        assert(n != "C"@ && m10.contains_key(n) ==> m11[n] == m10[n]);
        assert(m12.contains_key(n) <==> n == "C7"@ || m11.contains_key(n));
        assert(n == "C7"@ ==> m12[n] == seq![0i8, 3, 2, 3, -1i8]);
        assert(n != "C7"@ && m11.contains_key(n) ==> m12[n] == m11[n]);
        assert(m13.contains_key(n) <==> n == "Cm"@ || m12.contains_key(n));
        assert(n == "Cm"@ ==> m13[n] == seq![0i8, 5, 1, 3, -1i8]);
        assert(n != "Cm"@ && m12.contains_key(n) ==> m13[n] == m12[n]);
        assert(m14.contains_key(n) <==> n == "Cm7"@ || m13.contains_key(n));
        assert(n == "Cm7"@ ==> m14[n] == seq![0i8, 3, 1, 3, -1i8]);
        assert(n != "Cm7"@ && m13.contains_key(n) ==> m14[n] == m13[n]);
        assert(m15.contains_key(n) <==> n == "Cmaj7"@ || m14.contains_key(n));
        assert(n == "Cmaj7"@ ==> m15[n] == seq![0i8, 5, 2, 2, 3]);
        assert(n != "Cmaj7"@ && m14.contains_key(n) ==> m15[n] == m14[n]);
        assert(m16.contains_key(n) <==> n == "C/G"@ || m15.contains_key(n));
        assert(n == "C/G"@ ==> m16[n] == seq![0i8, 0, 2, 3, 0]);
        assert(n != "C/G"@ && m15.contains_key(n) ==> m16[n] == m15[n]);
        assert(m17.contains_key(n) <==> n == "C#"@ || m16.contains_key(n));
        assert(n == "C#"@ ==> m17[n] == seq![0i8, 6, 3, 4, 1]);
        assert(n != "C#"@ && m16.contains_key(n) ==> m17[n] == m16[n]);
        assert(m18.contains_key(n) <==> n == "C#7"@ || m17.contains_key(n));
        assert(n == "C#7"@ ==> m18[n] == seq![0i8, 4, 3, 4, -1i8]);
        assert(n != "C#7"@ && m17.contains_key(n) ==> m18[n] == m17[n]);
        assert(m19.contains_key(n) <==> n == "C#m"@ || m18.contains_key(n));
        assert(n == "C#m"@ ==> m19[n] == seq![0i8, 6, 2, 4, -1i8]);
        assert(n != "C#m"@ && m18.contains_key(n) ==> m19[n] == m18[n]);
        assert(m20.contains_key(n) <==> n == "D"@ || m19.contains_key(n));
        assert(n == "D"@ ==> m20[n] == seq![0i8, 2, 0, 0, 2]);
        assert(n != "D"@ && m19.contains_key(n) ==> m20[n] == m19[n]);
        assert(m21.contains_key(n) <==> n == "D7"@ || m20.contains_key(n));
        assert(n == "D7"@ ==> m21[n] == seq![0i8, 5, 4, 5, -1i8]);
        assert(n != "D7"@ && m20.contains_key(n) ==> m21[n] == m20[n]);
        assert(m22.contains_key(n) <==> n == "Dm"@ || m21.contains_key(n));
        assert(n == "Dm"@ ==> m22[n] == seq![0i8, 7, 3, 5, -1i8]);
        assert(n != "Dm"@ && m21.contains_key(n) ==> m22[n] == m21[n]);
        assert(m23.contains_key(n) <==> n == "Dm7"@ || m22.contains_key(n));
        assert(n == "Dm7"@ ==> m23[n] == seq![0i8, 5, 3, 5, -1i8]);
        assert(n != "Dm7"@ && m22.contains_key(n) ==> m23[n] == m22[n]);
        assert(m24.contains_key(n) <==> n == "Eb"@ || m23.contains_key(n));
        assert(n == "Eb"@ ==> m24[n] == seq![0i8, 8, 5, 6, 3]);
        assert(n != "Eb"@ && m23.contains_key(n) ==> m24[n] == m23[n]);
        assert(m25.contains_key(n) <==> n == "Eb7"@ || m24.contains_key(n));
        assert(n == "Eb7"@ ==> m25[n] == seq![0i8, 3, 1, 4, 3]);
        assert(n != "Eb7"@ && m24.contains_key(n) ==> m25[n] == m24[n]);
        assert(m26.contains_key(n) <==> n == "E"@ || m25.contains_key(n));
        assert(n == "E"@ ==> m26[n] == seq![0i8, 4, 6, 7, -1i8]);
        assert(n != "E"@ && m25.contains_key(n) ==> m26[n] == m25[n]);
        assert(m27.contains_key(n) <==> n == "E7"@ || m26.contains_key(n));
        assert(n == "E7"@ ==> m27[n] == seq![0i8, 7, 6, 7, -1i8]);
        assert(n != "E7"@ && m26.contains_key(n) ==> m27[n] == m26[n]);
        assert(m28.contains_key(n) <==> n == "Em"@ || m27.contains_key(n));
        assert(n == "Em"@ ==> m28[n] == seq![0i8, 4, 2, 2, 3]);
        assert(n != "Em"@ && m27.contains_key(n) ==> m28[n] == m27[n]);
        assert(m29.contains_key(n) <==> n == "Em7"@ || m28.contains_key(n));
        assert(n == "Em7"@ ==> m29[n] == seq![0i8, 4, 2, 5, 3]);
        assert(n != "Em7"@ && m28.contains_key(n) ==> m29[n] == m28[n]);
        assert(m30.contains_key(n) <==> n == "F"@ || m29.contains_key(n));
        assert(n == "F"@ ==> m30[n] == seq![0i8, 5, 3, 0, 1]);
        assert(n != "F"@ && m29.contains_key(n) ==> m30[n] == m29[n]);
        assert(m31.contains_key(n) <==> n == "F7"@ || m30.contains_key(n));
        assert(n == "F7"@ ==> m31[n] == seq![0i8, 5, 3, 6, 5]);
        assert(n != "F7"@ && m30.contains_key(n) ==> m31[n] == m30[n]);
        assert(m32.contains_key(n) <==> n == "Fm"@ || m31.contains_key(n));
        assert(n == "Fm"@ ==> m32[n] == seq![0i8, 5, 3, 3, 4]);
        assert(n != "Fm"@ && m31.contains_key(n) ==> m32[n] == m31[n]);
        assert(m33.contains_key(n) <==> n == "Fmaj7"@ || m32.contains_key(n));
        assert(n == "Fmaj7"@ ==> m33[n] == seq![0i8, 5, 3, 7, 5]);
        assert(n != "Fmaj7"@ && m32.contains_key(n) ==> m33[n] == m32[n]);
        assert(m34.contains_key(n) <==> n == "F#"@ || m33.contains_key(n));
        assert(n == "F#"@ ==> m34[n] == seq![0i8, 6, 4, 1, 2]);
        assert(n != "F#"@ && m33.contains_key(n) ==> m34[n] == m33[n]);
        assert(m35.contains_key(n) <==> n == "F#7"@ || m34.contains_key(n));
        assert(n == "F#7"@ ==> m35[n] == seq![0i8, 6, 4, 7, 6]);
        assert(n != "F#7"@ && m34.contains_key(n) ==> m35[n] == m34[n]);
        assert(m36.contains_key(n) <==> n == "F#m"@ || m35.contains_key(n));
        assert(n == "F#m"@ ==> m36[n] == seq![0i8, 6, 4, 4, 5]);
        assert(n != "F#m"@ && m35.contains_key(n) ==> m36[n] == m35[n]);
        assert(m37.contains_key(n) <==> n == "F#m7"@ || m36.contains_key(n));
        assert(n == "F#m7"@ ==> m37[n] == seq![0i8, 6, 4, 7, 5]);
        assert(n != "F#m7"@ && m36.contains_key(n) ==> m37[n] == m36[n]);
        assert(m38.contains_key(n) <==> n == "G"@ || m37.contains_key(n));
        assert(n == "G"@ ==> m38[n] == seq![0i8, 0, 0, 2, 3]);
        assert(n != "G"@ && m37.contains_key(n) ==> m38[n] == m37[n]);
        assert(m39.contains_key(n) <==> n == "G7"@ || m38.contains_key(n));
        assert(n == "G7"@ ==> m39[n] == seq![0i8, 5, 4, 6, 4]);
        assert(n != "G7"@ && m38.contains_key(n) ==> m39[n] == m38[n]);
        assert(m40.contains_key(n) <==> n == "Gm"@ || m39.contains_key(n));
        assert(n == "Gm"@ ==> m40[n] == seq![0i8, 0, 0, 1, 3]);
        assert(n != "Gm"@ && m39.contains_key(n) ==> m40[n] == m39[n]);
        assert(m41.contains_key(n) <==> n == "Gm7"@ || m40.contains_key(n));
        assert(n == "Gm7"@ ==> m41[n] == seq![0i8, 7, 5, 8, 6]);
        assert(n != "Gm7"@ && m40.contains_key(n) ==> m41[n] == m40[n]);
        assert(m42.contains_key(n) <==> n == "G#"@ || m41.contains_key(n));
        assert(n == "G#"@ ==> m42[n] == seq![0i8, 8, 6, 3, 4]);
        assert(n != "G#"@ && m41.contains_key(n) ==> m42[n] == m41[n]);
    }
}

/// How the mandolin table's names are spelt, so that lookups of a
/// concrete name can tell them apart.
pub proof fn lemma_mandolin_name_spellings()
    ensures
        "Ab"@.len() == 2 && "Ab"@[0] == 'A' && "Ab"@[1] == 'b',
        "A"@.len() == 1 && "A"@[0] == 'A',
        "A7"@.len() == 2 && "A7"@[0] == 'A' && "A7"@[1] == '7',
        "Am"@.len() == 2 && "Am"@[0] == 'A' && "Am"@[1] == 'm',
        "Am7"@.len() == 3 && "Am7"@[0] == 'A' && "Am7"@[1] == 'm' && "Am7"@[2] == '7',
        "Bb"@.len() == 2 && "Bb"@[0] == 'B' && "Bb"@[1] == 'b',
        "B"@.len() == 1 && "B"@[0] == 'B',
        "B7"@.len() == 2 && "B7"@[0] == 'B' && "B7"@[1] == '7',
        "Bm"@.len() == 2 && "Bm"@[0] == 'B' && "Bm"@[1] == 'm',
        "Bm7"@.len() == 3 && "Bm7"@[0] == 'B' && "Bm7"@[1] == 'm' && "Bm7"@[2] == '7',
        "C"@.len() == 1 && "C"@[0] == 'C',
        "C7"@.len() == 2 && "C7"@[0] == 'C' && "C7"@[1] == '7',
        "Cm"@.len() == 2 && "Cm"@[0] == 'C' && "Cm"@[1] == 'm',
        "Cm7"@.len() == 3 && "Cm7"@[0] == 'C' && "Cm7"@[1] == 'm' && "Cm7"@[2] == '7',
        "Cmaj7"@.len() == 5 && "Cmaj7"@[0] == 'C' && "Cmaj7"@[1] == 'm' && "Cmaj7"@[2] == 'a' && "Cmaj7"@[3] == 'j' && "Cmaj7"@[4] == '7',
        "C/G"@.len() == 3 && "C/G"@[0] == 'C' && "C/G"@[1] == '/' && "C/G"@[2] == 'G',
        "C#"@.len() == 2 && "C#"@[0] == 'C' && "C#"@[1] == '#',
        "C#7"@.len() == 3 && "C#7"@[0] == 'C' && "C#7"@[1] == '#' && "C#7"@[2] == '7',
        "C#m"@.len() == 3 && "C#m"@[0] == 'C' && "C#m"@[1] == '#' && "C#m"@[2] == 'm',
        "D"@.len() == 1 && "D"@[0] == 'D',
        "D7"@.len() == 2 && "D7"@[0] == 'D' && "D7"@[1] == '7',
        "Dm"@.len() == 2 && "Dm"@[0] == 'D' && "Dm"@[1] == 'm',
        "Dm7"@.len() == 3 && "Dm7"@[0] == 'D' && "Dm7"@[1] == 'm' && "Dm7"@[2] == '7',
        "Eb"@.len() == 2 && "Eb"@[0] == 'E' && "Eb"@[1] == 'b',
        "Eb7"@.len() == 3 && "Eb7"@[0] == 'E' && "Eb7"@[1] == 'b' && "Eb7"@[2] == '7',
        "E"@.len() == 1 && "E"@[0] == 'E',
        "E7"@.len() == 2 && "E7"@[0] == 'E' && "E7"@[1] == '7',
        "Em"@.len() == 2 && "Em"@[0] == 'E' && "Em"@[1] == 'm',
        "Em7"@.len() == 3 && "Em7"@[0] == 'E' && "Em7"@[1] == 'm' && "Em7"@[2] == '7',
        "F"@.len() == 1 && "F"@[0] == 'F',
        "F7"@.len() == 2 && "F7"@[0] == 'F' && "F7"@[1] == '7',
        "Fm"@.len() == 2 && "Fm"@[0] == 'F' && "Fm"@[1] == 'm',
        "Fmaj7"@.len() == 5 && "Fmaj7"@[0] == 'F' && "Fmaj7"@[1] == 'm' && "Fmaj7"@[2] == 'a' && "Fmaj7"@[3] == 'j' && "Fmaj7"@[4] == '7',
        "F#"@.len() == 2 && "F#"@[0] == 'F' && "F#"@[1] == '#',
        "F#7"@.len() == 3 && "F#7"@[0] == 'F' && "F#7"@[1] == '#' && "F#7"@[2] == '7',
        "F#m"@.len() == 3 && "F#m"@[0] == 'F' && "F#m"@[1] == '#' && "F#m"@[2] == 'm',
        "F#m7"@.len() == 4 && "F#m7"@[0] == 'F' && "F#m7"@[1] == '#' && "F#m7"@[2] == 'm' && "F#m7"@[3] == '7',
        "G"@.len() == 1 && "G"@[0] == 'G',
        "G7"@.len() == 2 && "G7"@[0] == 'G' && "G7"@[1] == '7',
        "Gm"@.len() == 2 && "Gm"@[0] == 'G' && "Gm"@[1] == 'm',
        "Gm7"@.len() == 3 && "Gm7"@[0] == 'G' && "Gm7"@[1] == 'm' && "Gm7"@[2] == '7',
        "G#"@.len() == 2 && "G#"@[0] == 'G' && "G#"@[1] == '#',
{
    reveal_strlit("Ab");
    reveal_strlit("A");
    reveal_strlit("A7");
    reveal_strlit("Am");
    reveal_strlit("Am7");
    reveal_strlit("Bb");
    reveal_strlit("B");
    reveal_strlit("B7");
    reveal_strlit("Bm");
    reveal_strlit("Bm7");
    reveal_strlit("C");
    reveal_strlit("C7");
    reveal_strlit("Cm");
    reveal_strlit("Cm7");
    reveal_strlit("Cmaj7");
    reveal_strlit("C/G");
    reveal_strlit("C#");
    reveal_strlit("C#7");
    reveal_strlit("C#m");
    reveal_strlit("D");
    reveal_strlit("D7");
    reveal_strlit("Dm");
    reveal_strlit("Dm7");
    reveal_strlit("Eb");
    reveal_strlit("Eb7");
    reveal_strlit("E");
    reveal_strlit("E7");
    reveal_strlit("Em");
    reveal_strlit("Em7");
    reveal_strlit("F");
    reveal_strlit("F7");
    reveal_strlit("Fm");
    reveal_strlit("Fmaj7");
    reveal_strlit("F#");
    reveal_strlit("F#7");
    reveal_strlit("F#m");
    reveal_strlit("F#m7");
    reveal_strlit("G");
    reveal_strlit("G7");
    reveal_strlit("Gm");
    reveal_strlit("Gm7");
    reveal_strlit("G#");
}
/// Add one guitar chord: a barre fret and six string positions.
fn chord6(
    t: &mut Vec<(String, Vec<i8>)>,
    name: &str,
    base: i8,
    e: i8,
    a: i8,
    d: i8,
    g: i8,
    b: i8,
    e2: i8,
)
    requires
        sorted_keys(old(t)@),
        all_arity(old(t)@, 7),
    ensures
        sorted_keys(final(t)@),
        all_arity(final(t)@, 7),
        assoc_map(final(t)@) == assoc_map(old(t)@).insert(name@, seq![base, e, a, d, g, b, e2]),
{
    let mut def: Vec<i8> = Vec::new();
    def.push(base);
    def.push(e);
    def.push(a);
    def.push(d);
    def.push(g);
    def.push(b);
    def.push(e2);
    proof {
        assert(def@ =~= seq![base, e, a, d, g, b, e2]);
    }
    assoc_insert(t, String::from_str(name), def);
}

/// Add one mandolin chord: four string positions, never drawn with a
/// barre label.
fn chord4(t: &mut Vec<(String, Vec<i8>)>, name: &str, g: i8, d: i8, a: i8, e: i8)
    requires
        sorted_keys(old(t)@),
        all_arity(old(t)@, 5),
    ensures
        sorted_keys(final(t)@),
        all_arity(final(t)@, 5),
        assoc_map(final(t)@) == assoc_map(old(t)@).insert(name@, seq![0i8, g, d, a, e]),
{
    let mut def: Vec<i8> = Vec::new();
    def.push(0);
    def.push(g);
    def.push(d);
    def.push(a);
    def.push(e);
    proof {
        assert(def@ =~= seq![0i8, g, d, a, e]);
    }
    assoc_insert(t, String::from_str(name), def);
}

/// The built-in guitar table.
pub(crate) fn guitar_chords() -> (t: Vec<(String, Vec<i8>)>)
    ensures
        sorted_keys(t@),
        all_arity(t@, 7),
        assoc_map(t@) == guitar_table(),
{
    let mut t: Vec<(String, Vec<i8>)> = Vec::new();
    proof {
        assert(assoc_map(t@) =~= Map::<Seq<char>, Seq<i8>>::empty());
    }
    let x: i8 = -1;
    chord6(&mut t, "Ab", 4, 1, 3, 3, 2, 1, 1);
    chord6(&mut t, "Ab6", 1, 4, 3, 1, 1, 1, 1);
    chord6(&mut t, "Ab7", 4, 1, 3, 1, 2, 1, 1);
    chord6(&mut t, "Abm", 4, 1, 3, 3, 1, 1, 1);
    chord6(&mut t, "Abm7", 4, 1, 3, 1, 1, 1, 1);
    chord6(&mut t, "Abmaj7", 4, 1, 3, 2, 2, 1, 1);
    chord6(&mut t, "A", 0, x, 0, 2, 2, 2, 0);
    chord6(&mut t, "A/E", 0, 0, 0, 2, 2, 2, 0);
    chord6(&mut t, "A6", 1, x, 0, 2, 2, 2, 2);
    chord6(&mut t, "A7", 0, x, 0, 2, 0, 2, 0);
    chord6(&mut t, "A7/C#", 4, x, 1, 2, 3, 2, 2);
    chord6(&mut t, "A9", 4, 2, 1, 2, 1, 2, x);
    chord6(&mut t, "Am", 0, x, 0, 2, 2, 1, 0);
    chord6(&mut t, "Am/C", 1, x, 3, 2, 2, 1, 0);
    chord6(&mut t, "Am/E", 1, 0, 0, 2, 2, 1, 0);
    chord6(&mut t, "Am/F#", 1, 2, 0, 2, 2, 1, 0);
    chord6(&mut t, "Am/G", 1, 3, 0, 2, 2, 1, 0);
    chord6(&mut t, "Am6", 1, x, 0, 2, 2, 1, 2);
    chord6(&mut t, "Am7", 1, x, 0, 2, 0, 1, 0);
    chord6(&mut t, "Am7/G", 1, 3, 0, 2, 0, 1, 0);
    chord6(&mut t, "Am9", 5, 1, 3, 1, 1, 1, 3);
    chord6(&mut t, "Amaj7", 1, x, 0, 2, 1, 2, 0);
    chord6(&mut t, "Asus", 1, x, 0, 2, 2, 3, 0);
    chord6(&mut t, "Asus2", 1, x, 0, 2, 2, 0, 0);
    chord6(&mut t, "Asus4", 1, x, 0, 0, 2, 3, 0);
    chord6(&mut t, "Bb", 1, x, 1, 3, 3, 3, 1);
    chord6(&mut t, "Bbm", 1, x, 1, 3, 3, 2, 1);
    chord6(&mut t, "Bb7", 1, x, 1, 3, 1, 3, 1);
    chord6(&mut t, "Bbm7", 1, x, 1, 3, 1, 2, 1);
    chord6(&mut t, "Bb9'", 1, x, 1, 0, 1, 1, 1);
    chord6(&mut t, "Bb/E", 1, 0, 1, 3, 3, 3, 1);
    chord6(&mut t, "Bb/D", 1, x, x, 0, 2, 2, 1);
    chord6(&mut t, "B", 2, x, 1, 3, 3, 3, 1);
    chord6(&mut t, "B6", 2, x, 1, 3, 3, 3, 3);
    chord6(&mut t, "B7", 2, x, 1, 3, 1, 3, 1);
    chord6(&mut t, "Bdim", 1, x, 2, 3, 4, 3, x);
    chord6(&mut t, "Bm", 2, x, 1, 3, 3, 2, 1);
    chord6(&mut t, "Bm/F#", 2, 1, 1, 3, 3, 2, 1);
    chord6(&mut t, "Bm/G#", 4, 1, 2, 1, 4, 4, 4);
    chord6(&mut t, "Bm7", 2, x, 1, 3, 1, 2, 1);
    chord6(&mut t, "Bmaj7", 2, x, 1, 3, 2, 3, 1);
    chord6(&mut t, "Bsus4", 2, x, 1, 1, 3, 4, 1);
    chord6(&mut t, "C", 0, x, 3, 2, 0, 1, 0);
    chord6(&mut t, "C/B", 1, x, 2, 2, 0, 1, 0);
    chord6(&mut t, "C/D", 1, x, x, 0, 0, 1, 0);
    chord6(&mut t, "C/E", 1, 0, 3, 2, 0, 1, 0);
    chord6(&mut t, "C/G", 1, 3, 3, 2, 0, 1, 0);
    chord6(&mut t, "C6", 1, x, 3, 2, 2, 1, 0);
    chord6(&mut t, "C7", 1, x, 3, 2, 3, 1, 0);
    chord6(&mut t, "C7sus4", 1, x, 3, 3, 3, 1, 1);
    chord6(&mut t, "Cdim", 3, x, 1, 2, 3, 2, x);
    chord6(&mut t, "Cm", 3, x, 1, 3, 3, 2, 1);
    chord6(&mut t, "Cm7", 3, x, 1, 3, 1, 2, 1);
    chord6(&mut t, "Cmaj7", 0, x, 3, 2, 0, 0, 0);
    chord6(&mut t, "Cmaj7", 1, x, 3, 2, 0, 0, 0);
    chord6(&mut t, "Csus4", 1, x, 3, 3, 0, 1, 1);
    chord6(&mut t, "C#", 4, x, 1, 3, 3, 3, 1);
    chord6(&mut t, "C#7", 4, x, 1, 3, 1, 3, 1);
    chord6(&mut t, "C#m", 4, x, 1, 3, 3, 2, 1);
    chord6(&mut t, "C#m7", 4, x, 1, 3, 1, 2, 1);
    chord6(&mut t, "C#sus4", 1, x, 4, 4, 1, 2, 2);
    chord6(&mut t, "Db", 1, x, 4, 3, 1, 2, 1);
    chord6(&mut t, "D", 0, x, x, 0, 2, 3, 2);
    chord6(&mut t, "D/A", 0, x, 0, 0, 2, 3, 2);
    chord6(&mut t, "D/F#", 0, 2, 0, 0, 2, 3, 2);
    chord6(&mut t, "D7", 0, x, x, 0, 2, 1, 2);
    chord6(&mut t, "Dm", 0, x, x, 0, 2, 3, 1);
    chord6(&mut t, "Dm7", 0, x, x, 0, 2, 1, 1);
    chord6(&mut t, "Dmaj7", 0, x, x, 0, 2, 2, 2);
    chord6(&mut t, "Dsus4", 0, x, x, 0, 2, 3, 3);
    chord6(&mut t, "D#dim", 0, x, x, 1, 2, 4, 2);
    chord6(&mut t, "Eb", 3, x, 4, 3, 1, 2, 1);
    chord6(&mut t, "Eb7", 0, x, x, 1, 0, 2, 3);
    chord6(&mut t, "Ebm", 0, x, x, 1, 3, 4, 2);
    chord6(&mut t, "E", 0, 0, 2, 2, 1, 0, 0);
    chord6(&mut t, "E/G#", 0, x, x, x, 1, 0, 0);
    chord6(&mut t, "E7", 0, 0, 2, 2, 1, 3, 0);
    chord6(&mut t, "E9", 0, 0, 2, 0, 1, 0, 2);
    chord6(&mut t, "Eadd9", 0, 0, 2, 2, 1, 3, 3);
    chord6(&mut t, "Em", 0, 0, 2, 2, 0, 0, 0);
    chord6(&mut t, "Em6", 0, 0, 2, 2, 0, 2, 0);
    chord6(&mut t, "Em7", 0, 0, 2, 2, 0, 3, 0);
    chord6(&mut t, "Emaj7", 0, 0, 2, 1, 1, 0, 0);
    chord6(&mut t, "Esus4", 0, 0, 0, 2, 2, 0, 0);
    chord6(&mut t, "F", 0, 1, 3, 3, 2, 1, 1);
    chord6(&mut t, "F/A", 0, x, 0, 3, 2, 1, 1);
    chord6(&mut t, "F7", 0, 1, 3, 1, 2, 1, 1);
    chord6(&mut t, "Fm", 0, 1, 3, 3, 1, 1, 1);
    chord6(&mut t, "Fmaj7", 0, 1, 3, 2, 2, 1, 1);
    chord6(&mut t, "Fsus4", 0, 1, 1, 3, 3, 1, 1);
    chord6(&mut t, "F#", 2, 1, 3, 3, 2, 1, 1);
    chord6(&mut t, "F#7", 2, 1, 3, 1, 2, 1, 1);
    chord6(&mut t, "F#dim", 0, x, x, 4, 2, 1, 2);
    chord6(&mut t, "F#dim*", 0, 2, 3, 4, 2, x, x);
    chord6(&mut t, "F#m", 2, 1, 3, 3, 1, 1, 1);
    chord6(&mut t, "F#m7", 2, 1, 3, 1, 1, 1, 1);
    chord6(&mut t, "G", 0, 3, 2, 0, 0, 0, 3);
    chord6(&mut t, "G+", 0, 3, 2, 1, 0, 0, 3);
    chord6(&mut t, "G/A", 0, x, 0, 0, 0, 0, 3);
    chord6(&mut t, "G/B", 0, x, 2, 0, 0, 3, 3);
    chord6(&mut t, "G/C", 0, x, 3, 0, 0, 0, 3);
    chord6(&mut t, "G/F", 0, 1, 2, 0, 0, 3, 3);
    chord6(&mut t, "G/F#", 0, 2, 2, 0, 0, 0, 3);
    chord6(&mut t, "G6", 0, 3, 2, 0, 0, 0, 0);
    chord6(&mut t, "G7", 0, 3, 2, 0, 0, 0, 1);
    chord6(&mut t, "G7/D", 0, x, x, 0, 0, 0, 1);
    chord6(&mut t, "Gm", 3, 1, 3, 3, 1, 1, 1);
    chord6(&mut t, "Gm6", 0, 3, 1, 0, 0, 3, 0);
    chord6(&mut t, "Gm7", 3, 1, 3, 1, 1, 1, 1);
    chord6(&mut t, "Gmaj7", 0, 3, 2, 0, 0, 0, 2);
    chord6(&mut t, "Gsus4", 0, 3, 3, 0, 0, 3, 3);
    chord6(&mut t, "G#", 4, 1, 3, 3, 2, 1, 1);
    chord6(&mut t, "G#7", 4, 1, 3, 1, 2, 1, 1);
    chord6(&mut t, "G#dim", 4, 1, 2, 3, 1, x, x);
    chord6(&mut t, "G#m", 4, 1, 3, 3, 1, 1, 1);
    chord6(&mut t, "G#m7", 4, 1, 3, 1, 1, 1, 1);
    t
}

/// The built-in mandolin table.
pub(crate) fn mandolin_chords() -> (t: Vec<(String, Vec<i8>)>)
    ensures
        sorted_keys(t@),
        all_arity(t@, 5),
        assoc_map(t@) == mandolin_table(),
{
    let mut t: Vec<(String, Vec<i8>)> = Vec::new();
    proof {
        assert(assoc_map(t@) =~= Map::<Seq<char>, Seq<i8>>::empty());
    }
    let x: i8 = -1;
    chord4(&mut t, "Ab", 1, 1, 3, 4);
    chord4(&mut t, "A", 9, 7, 4, 5);
    chord4(&mut t, "A7", 6, 5, 7, 5);
    chord4(&mut t, "Am", 9, 7, 3, 5);
    chord4(&mut t, "Am7", 0, 2, 3, 0);
    chord4(&mut t, "Bb", 3, 3, 5, 7);
    chord4(&mut t, "B", 4, 4, 6, 7);
    chord4(&mut t, "B7", 2, 1, 2, x);
    chord4(&mut t, "Bm", 4, 4, 5, 7);
    chord4(&mut t, "Bm7", 4, 4, 5, 5);
    chord4(&mut t, "C", 5, 2, 3, 0);
    chord4(&mut t, "C7", 3, 2, 3, x);
    chord4(&mut t, "Cm", 5, 1, 3, x);
    chord4(&mut t, "Cm7", 3, 1, 3, x);
    chord4(&mut t, "Cmaj7", 5, 2, 2, 3);
    chord4(&mut t, "C/G", 0, 2, 3, 0);
    chord4(&mut t, "C#", 6, 3, 4, 1);
    chord4(&mut t, "C#7", 4, 3, 4, x);
    chord4(&mut t, "C#m", 6, 2, 4, x);
    chord4(&mut t, "D", 2, 0, 0, 2);
    chord4(&mut t, "D7", 5, 4, 5, x);
    chord4(&mut t, "Dm", 7, 3, 5, x);
    chord4(&mut t, "Dm7", 5, 3, 5, x);
    chord4(&mut t, "Eb", 8, 5, 6, 3);
    chord4(&mut t, "Eb7", 3, 1, 4, 3);
    chord4(&mut t, "E", 4, 6, 7, x);
    chord4(&mut t, "E7", 7, 6, 7, x);
    chord4(&mut t, "Em", 4, 2, 2, 3);
    chord4(&mut t, "Em7", 4, 2, 5, 3);
    chord4(&mut t, "F", 5, 3, 0, 1);
    chord4(&mut t, "F7", 5, 3, 6, 5);
    chord4(&mut t, "Fm", 5, 3, 3, 4);
    chord4(&mut t, "Fmaj7", 5, 3, 7, 5);
    chord4(&mut t, "F#", 6, 4, 1, 2);
    chord4(&mut t, "F#7", 6, 4, 7, 6);
    chord4(&mut t, "F#m", 6, 4, 4, 5);
    chord4(&mut t, "F#m7", 6, 4, 7, 5);
    chord4(&mut t, "G", 0, 0, 2, 3);
    chord4(&mut t, "G7", 5, 4, 6, 4);
    chord4(&mut t, "Gm", 0, 0, 1, 3);
    chord4(&mut t, "Gm7", 7, 5, 8, 6);
    chord4(&mut t, "G#", 8, 6, 3, 4);
    t
}

} // verus!
