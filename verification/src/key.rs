//! Transposition keys and Nashville-notation chords.
//!
//! A key is a base tone on the twelve-tone circle starting at A, a mode
//! (major or minor), and a spelling (sharps or flats) for printing note
//! names.  A Nashville chord names a scale degree `1`-`7` with an optional
//! leading accidental; [`Key::from_nashville`] turns it into a printed
//! chord name in the key.

use vstd::prelude::*;

use crate::strutil::str_contains;

verus! {

/// Index of a plain tone name on the twelve-tone circle starting at A.
pub open spec fn spec_base_index(s: Seq<char>) -> Option<int> {
    if s == seq!['A'] {
        Some(0int)
    } else if s == seq!['A', '#'] || s == seq!['B', 'b'] {
        Some(1int)
    } else if s == seq!['B'] {
        Some(2int)
    } else if s == seq!['C'] {
        Some(3int)
    } else if s == seq!['C', '#'] || s == seq!['D', 'b'] {
        Some(4int)
    } else if s == seq!['D'] {
        Some(5int)
    } else if s == seq!['D', '#'] || s == seq!['E', 'b'] {
        Some(6int)
    } else if s == seq!['E'] {
        Some(7int)
    } else if s == seq!['F'] {
        Some(8int)
    } else if s == seq!['F', '#'] || s == seq!['G', 'b'] {
        Some(9int)
    } else if s == seq!['G'] {
        Some(10int)
    } else if s == seq!['G', '#'] || s == seq!['A', 'b'] {
        Some(11int)
    } else {
        None
    }
}

/// What a key name means: a trailing `m` marks a minor key, the rest
/// names the base tone, and the spelling is flats when the name holds a
/// `b`, or when the key is minor and holds no `#`; otherwise sharps.
/// Yields `(base, major, sharp)`.
pub open spec fn spec_key(s: Seq<char>) -> Option<(int, bool, bool)> {
    let minor = s.len() > 0 && s.last() == 'm';
    let base_s = if minor {
        s.drop_last()
    } else {
        s
    };
    match spec_base_index(base_s) {
        Some(b) => {
            let flat = s.contains('b') || (minor && !s.contains('#'));
            Some((b, !minor, !flat))
        },
        None => None,
    }
}

fn base_index(s: &str) -> (r: Option<u8>)
    ensures
        match r {
            Some(b) => b < 12 && spec_base_index(s@) == Some(b as int),
            None => spec_base_index(s@) is None,
        },
{
    let len = s.unicode_len();
    if len == 1 {
        let c = s.get_char(0);
        proof {
            assert(s@ =~= seq![c]);
        }
        if c == 'A' {
            Some(0)
        } else if c == 'B' {
            Some(2)
        } else if c == 'C' {
            Some(3)
        } else if c == 'D' {
            Some(5)
        } else if c == 'E' {
            Some(7)
        } else if c == 'F' {
            Some(8)
        } else if c == 'G' {
            Some(10)
        } else {
            None
        }
    } else if len == 2 {
        let c0 = s.get_char(0);
        let c1 = s.get_char(1);
        proof {
            assert(s@ =~= seq![c0, c1]);
        }
        if c1 == '#' {
            if c0 == 'A' {
                Some(1)
            } else if c0 == 'C' {
                Some(4)
            } else if c0 == 'D' {
                Some(6)
            } else if c0 == 'F' {
                Some(9)
            } else if c0 == 'G' {
                Some(11)
            } else {
                None
            }
        } else if c1 == 'b' {
            if c0 == 'A' {
                Some(11)
            } else if c0 == 'B' {
                Some(1)
            } else if c0 == 'D' {
                Some(4)
            } else if c0 == 'E' {
                Some(6)
            } else if c0 == 'G' {
                Some(9)
            } else {
                None
            }
        } else {
            None
        }
    } else {
        None
    }
}

/// Semitones above the tonic of a Nashville scale degree; degrees 3, 6
/// and 7 sit a half step lower in a minor key.
pub open spec fn degree_semitones(c: char, maj: bool) -> int {
    if c == '1' {
        0
    } else if c == '2' {
        2
    } else if c == '3' {
        if maj {
            4
        } else {
            3
        }
    } else if c == '4' {
        5
    } else if c == '5' {
        7
    } else if c == '6' {
        if maj {
            9
        } else {
            8
        }
    } else {
        if maj {
            11
        } else {
            10
        }
    }
}

/// The degree numeral and suffix of a Nashville chord, after an optional
/// leading accidental.
pub open spec fn nash_body(s: Seq<char>) -> Seq<char> {
    if s.len() > 0 && (s[0] == 'b' || s[0] == '#') {
        s.drop_first()
    } else {
        s
    }
}

/// Semitone shift of the optional leading accidental.
pub open spec fn nash_offset(s: Seq<char>) -> int {
    if s.len() > 0 && s[0] == 'b' {
        11
    } else if s.len() > 0 && s[0] == '#' {
        1
    } else {
        0
    }
}

/// A well-formed Nashville chord: after the optional accidental comes a
/// degree numeral `1`-`7`.
pub open spec fn nashville_ok(s: Seq<char>) -> bool {
    nash_body(s).len() > 0 && '1' as int <= nash_body(s)[0] as int <= '7' as int
}

/// Semitones above the tonic that the chord names.
pub open spec fn nash_num(s: Seq<char>, maj: bool) -> int {
    (degree_semitones(nash_body(s)[0], maj) + nash_offset(s)) % 12
}

/// What follows the degree numeral: the chord quality, kept verbatim.
pub open spec fn nash_suffix(s: Seq<char>) -> Seq<char> {
    nash_body(s).drop_first()
}

/// Split a Nashville chord into its semitone offset from the tonic and
/// its quality suffix.
pub fn parse_nashville<'a>(chord: &'a str, maj: bool) -> (r: (u8, &'a str))
    requires
        nashville_ok(chord@),
    ensures
        r.0 < 12,
        r.0 as int == nash_num(chord@, maj),
        r.1@ == nash_suffix(chord@),
{
    let len = chord.unicode_len();
    let c0 = chord.get_char(0);
    let (off, dpos): (u8, usize) = if c0 == 'b' {
        (11, 1)
    } else if c0 == '#' {
        (1, 1)
    } else {
        (0, 0)
    };
    proof {
        assert(nash_body(chord@).len() == len - dpos);
        assert(nash_body(chord@)[0] == chord@[dpos as int]);
    }
    let d = chord.get_char(dpos);
    let num: u8 = if d == '1' {
        0
    } else if d == '2' {
        2
    } else if d == '3' {
        if maj {
            4
        } else {
            3
        }
    } else if d == '4' {
        5
    } else if d == '5' {
        7
    } else if d == '6' {
        if maj {
            9
        } else {
            8
        }
    } else {
        if maj {
            11
        } else {
            10
        }
    };
    let suffix = chord.substring_char(dpos + 1, len);
    proof {
        assert(suffix@ =~= nash_suffix(chord@));
    }
    ((num + off) % 12, suffix)
}

/// Printed name of the tone `idx` half steps above A, spelled with
/// sharps or with flats.
pub open spec fn spec_note_name(sharp: bool, idx: int) -> Seq<char> {
    if idx == 0 {
        "A"@
    } else if idx == 1 {
        if sharp {
            "A#"@
        } else {
            "Bb"@
        }
    } else if idx == 2 {
        "B"@
    } else if idx == 3 {
        "C"@
    } else if idx == 4 {
        if sharp {
            "C#"@
        } else {
            "Db"@
        }
    } else if idx == 5 {
        "D"@
    } else if idx == 6 {
        if sharp {
            "D#"@
        } else {
            "Eb"@
        }
    } else if idx == 7 {
        "E"@
    } else if idx == 8 {
        "F"@
    } else if idx == 9 {
        if sharp {
            "F#"@
        } else {
            "Gb"@
        }
    } else if idx == 10 {
        "G"@
    } else {
        if sharp {
            "G#"@
        } else {
            "Ab"@
        }
    }
}

fn note_name(sharp: bool, idx: u8) -> (r: &'static str)
    requires
        idx < 12,
    ensures
        r@ == spec_note_name(sharp, idx as int),
{
    if idx == 0 {
        "A"
    } else if idx == 1 {
        if sharp {
            "A#"
        } else {
            "Bb"
        }
    } else if idx == 2 {
        "B"
    } else if idx == 3 {
        "C"
    } else if idx == 4 {
        if sharp {
            "C#"
        } else {
            "Db"
        }
    } else if idx == 5 {
        "D"
    } else if idx == 6 {
        if sharp {
            "D#"
        } else {
            "Eb"
        }
    } else if idx == 7 {
        "E"
    } else if idx == 8 {
        "F"
    } else if idx == 9 {
        if sharp {
            "F#"
        } else {
            "Gb"
        }
    } else if idx == 10 {
        "G"
    } else {
        if sharp {
            "G#"
        } else {
            "Ab"
        }
    }
}

/// A key to transpose to and from.
pub struct Key {
    /// The base tone, A = 0, Bb = 1, B = 2, and so on.
    base: u8,
    /// Major or minor key.
    maj: bool,
    /// Whether note names are spelled with sharps rather than flats.
    sharp: bool,
}

impl Key {
    /// The base tone of the key.
    pub closed spec fn spec_base(&self) -> int {
        self.base as int
    }

    /// Whether the key is major.
    pub closed spec fn spec_maj(&self) -> bool {
        self.maj
    }

    /// Whether note names are spelled with sharps.
    pub closed spec fn spec_sharp(&self) -> bool {
        self.sharp
    }

    /// The base tone lies on the twelve-tone circle.
    pub closed spec fn wf(&self) -> bool {
        self.base < 12
    }

    /// Parse a key name such as `Bb` or `F#m`; an unrecognized name
    /// yields `None`.
    pub fn new(key: &str) -> (r: Option<Key>)
        ensures
            match r {
                Some(k) => k.wf() && spec_key(key@) == Some(
                    (k.spec_base(), k.spec_maj(), k.spec_sharp()),
                ),
                None => spec_key(key@) is None,
            },
    {
        let len = key.unicode_len();
        let minor = len > 0 && key.get_char(len - 1) == 'm';
        let base_str = if minor {
            key.substring_char(0, len - 1)
        } else {
            key
        };
        proof {
            if minor {
                assert(base_str@ =~= key@.drop_last());
            }
        }
        match base_index(base_str) {
            Some(b) => {
                let flat = str_contains(key, 'b') || (minor && !str_contains(key, '#'));
                Some(Key { base: b, maj: !minor, sharp: !flat })
            },
            None => None,
        }
    }

    /// Spell a Nashville chord as a chord name in this key: the note name
    /// of the transposed degree followed by the chord's own suffix.
    pub fn from_nashville(&self, chord: &str) -> (r: String)
        requires
            self.wf(),
            nashville_ok(chord@),
        ensures
            r@ == spec_note_name(
                self.spec_sharp(),
                (self.spec_base() + nash_num(chord@, self.spec_maj())) % 12,
            ) + nash_suffix(chord@),
    {
        let (n, m) = parse_nashville(chord, self.maj);
        let idx = (self.base + n) % 12;
        let note = note_name(self.sharp, idx);
        String::from_str(note).concat(m)
    }
}

} // verus!
