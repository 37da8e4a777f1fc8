//! Verified core of a chopro song-sheet formatter.
//!
//! The crate turns lines of the chopro song markup into a stream of typed
//! song elements, resolves the chord names a song uses to fingering
//! diagrams, transposes Nashville-notation chords into a key, and computes
//! the page geometry and chord-box grid counts that drive pagination.
//! Drawing to an actual page, font metrics and command-line handling are
//! deliberately outside of this crate.

pub mod chords;
pub mod chordtable;
pub mod key;
pub mod layout;
pub mod pagedim;
pub mod parser;
pub mod strutil;
