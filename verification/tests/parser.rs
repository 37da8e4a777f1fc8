use chord3::chords::{ChordHolder, Instrument};
use chord3::parser::{ChoproParser, ChordFileExpression};

fn parser_of(lines: &[&str]) -> ChoproParser {
    ChoproParser::new(lines.iter().map(|l| l.to_string()).collect())
}

#[test]
fn title_directive_and_aliases() {
    let mut p = parser_of(&["{title: Hello}", "{t:World}", "{T: Case}"]);
    match p.next().unwrap().unwrap() {
        ChordFileExpression::Title { s } => assert_eq!(s, "Hello"),
        _ => panic!("expected a title"),
    }
    match p.next().unwrap().unwrap() {
        ChordFileExpression::Title { s } => assert_eq!(s, "World"),
        _ => panic!("expected a title"),
    }
    match p.next().unwrap().unwrap() {
        ChordFileExpression::Title { s } => assert_eq!(s, "Case"),
        _ => panic!("expected a title"),
    }
    assert!(p.next().unwrap().is_none());
    assert!(p.is_eof());
}

#[test]
fn comment_lines_are_dropped() {
    let mut p = parser_of(&["# a source comment", "   # another", "{st: sub}"]);
    match p.next().unwrap().unwrap() {
        ChordFileExpression::SubTitle { s } => assert_eq!(s, "sub"),
        _ => panic!("expected a subtitle"),
    }
    assert!(p.next().unwrap().is_none());
}

#[test]
fn chorus_block_collects_lines() {
    // A chorus of two lyric lines becomes one element with two children.
    let mut p = parser_of(&["{soc}", "first line", "second [Am]line", "{eoc}", "after"]);
    match p.next().unwrap().unwrap() {
        ChordFileExpression::Chorus { lines } => {
            assert_eq!(lines.len(), 2);
            match &lines[0] {
                ChordFileExpression::Line { s } => assert_eq!(s, &vec!["first line".to_string()]),
                _ => panic!("expected a line"),
            }
            match &lines[1] {
                ChordFileExpression::Line { s } => assert_eq!(
                    s,
                    &vec!["second ".to_string(), "Am".to_string(), "line".to_string()]
                ),
                _ => panic!("expected a line"),
            }
        }
        _ => panic!("expected a chorus"),
    }
    match p.next().unwrap().unwrap() {
        ChordFileExpression::Line { s } => assert_eq!(s, vec!["after".to_string()]),
        _ => panic!("expected a line"),
    }
}

#[test]
fn nested_chorus_is_one_element() {
    let mut p = parser_of(&["{soc}", "a", "{soc}", "b", "{eoc}", "c", "{eoc}"]);
    match p.next().unwrap().unwrap() {
        ChordFileExpression::Chorus { lines } => {
            assert_eq!(lines.len(), 3);
            assert!(matches!(lines[1], ChordFileExpression::Chorus { .. }));
        }
        _ => panic!("expected a chorus"),
    }
    assert!(p.next().unwrap().is_none());
}

#[test]
fn stray_end_of_chorus_is_an_element() {
    let mut p = parser_of(&["{eoc}"]);
    assert!(matches!(
        p.next().unwrap().unwrap(),
        ChordFileExpression::EndOfChorus
    ));
}

#[test]
fn tab_block_is_verbatim() {
    let mut p = parser_of(&[
        "{sot}",
        "e|-0-1-{not_a_directive}",
        "# dropped even inside tab",
        "B|-3-[x]-",
        "{eot}",
        "after",
    ]);
    match p.next().unwrap().unwrap() {
        ChordFileExpression::Tab { lines } => {
            assert_eq!(
                lines,
                vec![
                    "e|-0-1-{not_a_directive}".to_string(),
                    "B|-3-[x]-".to_string()
                ]
            );
        }
        _ => panic!("expected a tab"),
    }
    assert!(matches!(
        p.next().unwrap().unwrap(),
        ChordFileExpression::Line { .. }
    ));
}

#[test]
fn define_directive_installs_chord() {
    let mut p = parser_of(&["{define: Am7 base-fret 1 frets x 0 2 0 1 0}"]);
    match p.next().unwrap().unwrap() {
        ChordFileExpression::ChordDef { name, def } => {
            assert_eq!(name, "Am7");
            assert_eq!(def, vec![1, -1, 0, 2, 0, 1, 0]);
        }
        _ => panic!("expected a chord definition"),
    }
}

#[test]
fn define_four_string() {
    let mut p = parser_of(&["{define: Am base-fret 0 frets 2 2 3 X}"]);
    match p.next().unwrap().unwrap() {
        ChordFileExpression::ChordDef { name, def } => {
            assert_eq!(name, "Am");
            assert_eq!(def, vec![0, 2, 2, 3, -1]);
        }
        _ => panic!("expected a chord definition"),
    }
}

#[test]
fn malformed_define_becomes_comment() {
    // A non-digit fret token for a used string spoils the grammar: the
    // whole line survives as a comment and no fingering is produced.
    let line = "{define: Am base-fret 1 frets q 0 2 0 1 0}";
    let mut p = parser_of(&[line]);
    match p.next().unwrap().unwrap() {
        ChordFileExpression::Comment { s } => assert_eq!(s, line),
        _ => panic!("expected a comment"),
    }
    let mut resolver = ChordHolder::new_for(Instrument::Guitar);
    resolver.use_chord("Am");
    // The resolver still sees only the built-in fingering.
    assert_eq!(
        vec![("Am".to_string(), vec![0, -1, 0, 2, 2, 1, 0])],
        resolver.get_used()
    );
}

#[test]
fn unknown_directive_becomes_comment() {
    let mut p = parser_of(&["{frobnicate: 12}"]);
    match p.next().unwrap().unwrap() {
        ChordFileExpression::Comment { s } => assert_eq!(s, "{frobnicate: 12}"),
        _ => panic!("expected a comment"),
    }
}

#[test]
fn columns_and_breaks() {
    let mut p = parser_of(&["{columns: 2}", "{col:3}", "{colb}", "{np}", "{new_song}"]);
    match p.next().unwrap().unwrap() {
        ChordFileExpression::StartColumns { n_columns } => assert_eq!(n_columns, 2),
        _ => panic!("expected columns"),
    }
    match p.next().unwrap().unwrap() {
        ChordFileExpression::StartColumns { n_columns } => assert_eq!(n_columns, 3),
        _ => panic!("expected columns"),
    }
    assert!(matches!(
        p.next().unwrap().unwrap(),
        ChordFileExpression::ColumnBreak
    ));
    assert!(matches!(
        p.next().unwrap().unwrap(),
        ChordFileExpression::PageBreak
    ));
    assert!(matches!(
        p.next().unwrap().unwrap(),
        ChordFileExpression::NewSong
    ));
}

#[test]
fn malformed_columns_count_aborts() {
    let mut p = parser_of(&["{columns: two}"]);
    assert!(p.next().is_err());
}

#[test]
fn lyric_line_segments_alternate() {
    let mut p = parser_of(&["C [Am]Home[C]again"]);
    match p.next().unwrap().unwrap() {
        ChordFileExpression::Line { s } => {
            assert_eq!(
                s,
                vec![
                    "C ".to_string(),
                    "Am".to_string(),
                    "Home".to_string(),
                    "C".to_string(),
                    "again".to_string()
                ]
            );
        }
        _ => panic!("expected a line"),
    }
}

#[test]
fn leading_chord_gives_empty_first_segment() {
    let mut p = parser_of(&["[Am]Home[C]again"]);
    match p.next().unwrap().unwrap() {
        ChordFileExpression::Line { s } => {
            assert_eq!(
                s,
                vec![
                    "".to_string(),
                    "Am".to_string(),
                    "Home".to_string(),
                    "C".to_string(),
                    "again".to_string()
                ]
            );
        }
        _ => panic!("expected a line"),
    }
}

#[test]
fn empty_line_is_one_empty_segment() {
    let mut p = parser_of(&[""]);
    match p.next().unwrap().unwrap() {
        ChordFileExpression::Line { s } => assert_eq!(s, vec!["".to_string()]),
        _ => panic!("expected a line"),
    }
}

#[test]
fn tabs_expand_to_four_spaces() {
    let mut p = parser_of(&["a\tb"]);
    match p.next().unwrap().unwrap() {
        ChordFileExpression::Line { s } => assert_eq!(s, vec!["a    b".to_string()]),
        _ => panic!("expected a line"),
    }
}

#[test]
fn directive_anywhere_in_line_wins() {
    let mut p = parser_of(&["la la {np} tail"]);
    assert!(matches!(
        p.next().unwrap().unwrap(),
        ChordFileExpression::PageBreak
    ));
}

#[test]
fn argument_runs_to_last_brace() {
    let mut p = parser_of(&["{title: a}b}"]);
    match p.next().unwrap().unwrap() {
        ChordFileExpression::Title { s } => assert_eq!(s, "a}b"),
        _ => panic!("expected a title"),
    }
}

#[test]
fn brace_without_closing_is_a_lyric_line() {
    let mut p = parser_of(&["{abc"]);
    match p.next().unwrap().unwrap() {
        ChordFileExpression::Line { s } => assert_eq!(s, vec!["{abc".to_string()]),
        _ => panic!("expected a line"),
    }
}

#[test]
fn unclosed_bracket_is_dropped() {
    let mut p = parser_of(&["ab[cd"]);
    match p.next().unwrap().unwrap() {
        ChordFileExpression::Line { s } => {
            assert_eq!(s, vec!["ab".to_string(), "cd".to_string()]);
        }
        _ => panic!("expected a line"),
    }
}

#[test]
fn columns_count_accepts_plus_sign() {
    let mut p = parser_of(&["{col: +2}"]);
    match p.next().unwrap().unwrap() {
        ChordFileExpression::StartColumns { n_columns } => assert_eq!(n_columns, 2),
        _ => panic!("expected columns"),
    }
}

#[test]
fn warnings_are_queued_and_drained() {
    let mut p = parser_of(&[
        "{frobnicate: 12}",
        "{define: Am base-fret 1 frets q 0 2 0 1 0}",
        "{title: ok}",
    ]);
    assert!(matches!(
        p.next().unwrap().unwrap(),
        ChordFileExpression::Comment { .. }
    ));
    assert!(matches!(
        p.next().unwrap().unwrap(),
        ChordFileExpression::Comment { .. }
    ));
    let warnings = p.take_warnings();
    assert_eq!(
        warnings,
        vec![
            "unknown expression frobnicate".to_string(),
            "Warning: Bad chord definition {define: Am base-fret 1 frets q 0 2 0 1 0}"
                .to_string(),
        ]
    );
    assert!(p.take_warnings().is_empty());
    assert!(matches!(
        p.next().unwrap().unwrap(),
        ChordFileExpression::Title { .. }
    ));
    assert!(p.take_warnings().is_empty());
}

#[test]
fn end_to_end_two_line_song() {
    // The whole pipeline: parse a two-line song, record the chords of its
    // lyric line, and resolve them in sorted order.
    let mut p = parser_of(&["{title: Test}", "C [Am]Home[C]again"]);
    let mut chords = ChordHolder::new_for(Instrument::Guitar);
    match p.next().unwrap().unwrap() {
        ChordFileExpression::Title { s } => assert_eq!(s, "Test"),
        _ => panic!("expected a title"),
    }
    match p.next().unwrap().unwrap() {
        ChordFileExpression::Line { s } => {
            assert_eq!(s, vec!["C ", "Am", "Home", "C", "again"]);
            for (i, part) in s.iter().enumerate() {
                if i % 2 == 1 {
                    chords.use_chord(part);
                }
            }
        }
        _ => panic!("expected a line"),
    }
    assert!(p.next().unwrap().is_none());
    assert_eq!(
        vec![
            ("Am".to_string(), vec![0, -1, 0, 2, 2, 1, 0]),
            ("C".to_string(), vec![0, -1, 3, 2, 0, 1, 0]),
        ],
        chords.get_used()
    );
}
