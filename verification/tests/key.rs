use chord3::key::{parse_nashville, Key};
use chord3::strutil::parse_u8;

#[test]
fn major_key_spells_sharps() {
    let key = Key::new("A").unwrap();
    assert_eq!(key.from_nashville("1"), "A");
    assert_eq!(key.from_nashville("4"), "D");
    assert_eq!(key.from_nashville("5m7"), "Em7");
    // Degree 3 of a major key sits four half steps up.
    assert_eq!(key.from_nashville("3"), "C#");
}

#[test]
fn minor_key_flattens_degrees() {
    let key = Key::new("Am").unwrap();
    // Degrees 3, 6 and 7 sit a half step lower in a minor key.
    assert_eq!(key.from_nashville("3"), "C");
    assert_eq!(key.from_nashville("6"), "F");
    assert_eq!(key.from_nashville("7"), "G");
    assert_eq!(key.from_nashville("1m"), "Am");
}

#[test]
fn flat_keys_spell_flats() {
    let key = Key::new("Bb").unwrap();
    assert_eq!(key.from_nashville("1"), "Bb");
    assert_eq!(key.from_nashville("3"), "D");
    assert_eq!(key.from_nashville("7"), "A");
    assert_eq!(key.from_nashville("b7"), "Ab");
}

#[test]
fn accidentals_shift_the_degree() {
    let key = Key::new("C").unwrap();
    assert_eq!(key.from_nashville("#4"), "F#");
    assert_eq!(key.from_nashville("b3"), "D#");
}

#[test]
fn suffix_is_kept() {
    let key = Key::new("G").unwrap();
    assert_eq!(key.from_nashville("2m7b5"), "Am7b5");
}

#[test]
fn nashville_parsing() {
    assert_eq!(parse_nashville("b3", true), (3, ""));
    assert_eq!(parse_nashville("#1", true), (1, ""));
    assert_eq!(parse_nashville("5m7", false), (7, "m7"));
    assert_eq!(parse_nashville("7", false), (10, ""));
}

#[test]
fn u8_parsing() {
    assert_eq!(parse_u8("0"), Some(0));
    assert_eq!(parse_u8("+12"), Some(12));
    assert_eq!(parse_u8("255"), Some(255));
    assert_eq!(parse_u8("256"), None);
    assert_eq!(parse_u8(""), None);
    assert_eq!(parse_u8("1 2"), None);
    assert_eq!(parse_u8("-1"), None);
}

#[test]
fn unknown_key_is_rejected() {
    assert!(Key::new("X").is_none());
    assert!(Key::new("").is_none());
    assert!(Key::new("m").is_none());
    assert!(Key::new("Hb").is_none());
}
