use chord3::chords::{ChordHolder, Instrument};

#[test]
fn test_simple_chord() {
    let mut test = ChordHolder::new_for(Instrument::Guitar);
    test.use_chord("Am");
    test.use_chord("E");
    assert_eq!(
        vec![
            ("Am".to_string(), vec![0, -1, 0, 2, 2, 1, 0]),
            ("E".to_string(), vec![0, 0, 2, 2, 1, 0, 0]),
        ],
        test.get_used()
    )
}

#[test]
fn test_override_chord() {
    let mut test = ChordHolder::new_for(Instrument::Guitar);
    test.define("Am".to_string(), vec![5, 1, 3, 3, 1, 1, 1]);
    test.use_chord("Am");
    test.use_chord("E");
    assert_eq!(
        vec![
            ("Am".to_string(), vec![5, 1, 3, 3, 1, 1, 1]),
            ("E".to_string(), vec![0, 0, 2, 2, 1, 0, 0]),
        ],
        test.get_used()
    )
}

#[test]
fn test_nochord_and_unknown() {
    let mut test = ChordHolder::new_for(Instrument::Guitar);
    test.use_chord("N.C.");
    test.use_chord("Smaj9");
    assert_eq!(
        vec![("Smaj9".to_string(), vec![0, -2, -2, -2, -2, -2, -2])],
        test.get_used()
    )
}

#[test]
fn excluded_names_are_never_recorded() {
    let mut test = ChordHolder::new_for(Instrument::Guitar);
    test.use_chord("");
    test.use_chord("NC");
    test.use_chord("N.C.");
    test.use_chord("%");
    test.use_chord("-");
    test.use_chord("/G");
    test.use_chord("x2");
    test.use_chord("x");
    assert_eq!(test.get_used(), vec![]);
}

#[test]
fn enharmonic_fallback_sharp_to_flat() {
    // "A#m" is not in the table, but "Bbm" is: the name keeps its
    // spelling, the fingering comes from the synonym.
    let mut test = ChordHolder::new_for(Instrument::Guitar);
    test.use_chord("A#m");
    assert_eq!(
        vec![("A#m".to_string(), vec![1, -1, 1, 3, 3, 2, 1])],
        test.get_used()
    );
}

#[test]
fn enharmonic_fallback_german_h() {
    let mut test = ChordHolder::new_for(Instrument::Guitar);
    test.use_chord("H7");
    assert_eq!(
        vec![("H7".to_string(), vec![2, -1, 1, 3, 1, 3, 1])],
        test.get_used()
    );
}

#[test]
fn replacement_rewrites() {
    assert_eq!(ChordHolder::replacement("H7"), Some("B7".to_string()));
    assert_eq!(ChordHolder::replacement("A#m"), Some("Bbm".to_string()));
    assert_eq!(ChordHolder::replacement("D#"), Some("Eb".to_string()));
    assert_eq!(ChordHolder::replacement("Gb9"), Some("F#9".to_string()));
    assert_eq!(ChordHolder::replacement("Cbm"), Some("Bm".to_string()));
    assert_eq!(ChordHolder::replacement("Am"), None);
    assert_eq!(ChordHolder::replacement("C"), None);
}

#[test]
fn define_wrong_arity_is_ignored() {
    let mut test = ChordHolder::new_for(Instrument::Guitar);
    // A four-string fingering on a six-string instrument is dropped.
    test.define("Am".to_string(), vec![0, 2, 2, 3, 5]);
    test.use_chord("Am");
    assert_eq!(
        vec![("Am".to_string(), vec![0, -1, 0, 2, 2, 1, 0])],
        test.get_used()
    );
}

#[test]
fn last_define_wins() {
    let mut test = ChordHolder::new_for(Instrument::Guitar);
    test.define("Am".to_string(), vec![5, 1, 3, 3, 1, 1, 1]);
    test.define("Am".to_string(), vec![0, 0, 0, 2, 2, 1, 0]);
    test.use_chord("Am");
    assert_eq!(
        vec![("Am".to_string(), vec![0, 0, 0, 2, 2, 1, 0])],
        test.get_used()
    );
}

#[test]
fn used_chords_come_out_sorted_and_distinct() {
    let mut test = ChordHolder::new_for(Instrument::Guitar);
    test.use_chord("G");
    test.use_chord("C");
    test.use_chord("Am");
    test.use_chord("G");
    let used = test.get_used();
    let names: Vec<&str> = used.iter().map(|p| p.0.as_str()).collect();
    assert_eq!(names, vec!["Am", "C", "G"]);
}

#[test]
fn mandolin_has_four_string_fingerings() {
    let mut test = ChordHolder::new_for(Instrument::Mandolin);
    test.use_chord("Am");
    test.use_chord("Smaj9");
    assert_eq!(
        vec![
            ("Am".to_string(), vec![0, 9, 7, 3, 5]),
            ("Smaj9".to_string(), vec![0, -2, -2, -2, -2]),
        ],
        test.get_used()
    );
}

#[test]
fn get_all_chords_is_sorted() {
    let test = ChordHolder::new_for(Instrument::Guitar);
    let all = test.get_all_chords();
    assert!(all.len() > 100);
    for w in all.windows(2) {
        assert!(w[0].0 < w[1].0);
    }
    for (_, def) in &all {
        assert_eq!(def.len(), 7);
    }
}

#[test]
fn is_known_tracks_resolution_sources() {
    let mut test = ChordHolder::new_for(Instrument::Guitar);
    assert!(test.is_known("Am"));
    assert!(test.is_known("A#m")); // through the enharmonic rewrite
    assert!(test.is_known("H7")); // German notation
    assert!(!test.is_known("Smaj9"));
    assert!(test.define("Smaj9".to_string(), vec![0, 1, 2, 3, 4, 5, 6]));
    assert!(test.is_known("Smaj9"));
}

#[test]
fn define_reports_whether_it_installed() {
    let mut test = ChordHolder::new_for(Instrument::Guitar);
    assert!(test.define("Am".to_string(), vec![5, 1, 3, 3, 1, 1, 1]));
    assert!(!test.define("Am".to_string(), vec![0, 2, 2, 3, 5]));
}

#[test]
fn default_instrument_is_guitar() {
    assert_eq!(Instrument::default(), Instrument::Guitar);
}
