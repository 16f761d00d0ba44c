use std::io::{Cursor, Write};

use music_xml::archive::decode_archive;
use music_xml::error::Error::{NodeNotFound, UnzipFailed, XmlDocParseFailed};
use music_xml::score::{NoteType, Pitch};

fn archive_of(entries: &[(&str, &str)]) -> Vec<u8> {
    let mut w = zip::ZipWriter::new(Cursor::new(Vec::new()));
    for (name, text) in entries {
        w.start_file(*name, zip::write::FileOptions::default()).unwrap();
        w.write_all(text.as_bytes()).unwrap();
    }
    w.finish().unwrap().into_inner()
}

const CONTAINER: &str = r#"<?xml version="1.0" encoding="UTF-8"?>
<container><rootfiles>
    <rootfile full-path="score.musicxml" media-type="application/vnd.recordare.musicxml+xml"/>
</rootfiles></container>"#;

const SCORE: &str = r#"<score-partwise><part><measure number="1">
    <note><pitch><step>G</step><octave>4</octave></pitch><duration>2</duration></note>
</measure></part></score-partwise>"#;

#[test]
fn archive_decodes_named_score() {
    let bytes = archive_of(&[("META-INF/container.xml", CONTAINER), ("score.musicxml", SCORE)]);
    let score = decode_archive(&bytes).unwrap();
    assert_eq!(score.parts.len(), 1);
    let note = score.parts[0].measures[0].notes[0];
    assert_eq!(note.note_type, NoteType::Pitch(Pitch { step: 5, alter: 0, octave: 4 }));
    assert_eq!(note.duration, 2);
}

#[test]
fn archive_without_manifest_fails() {
    let bytes = archive_of(&[("score.musicxml", SCORE)]);
    assert!(matches!(decode_archive(&bytes), Err(UnzipFailed { .. })));
}

#[test]
fn archive_missing_named_entry_fails() {
    let bytes = archive_of(&[("META-INF/container.xml", CONTAINER)]);
    assert!(matches!(decode_archive(&bytes), Err(UnzipFailed { .. })));
}

#[test]
fn archive_with_bad_manifest_fails() {
    let bytes = archive_of(&[("META-INF/container.xml", "<container>"), ("score.musicxml", SCORE)]);
    assert!(matches!(decode_archive(&bytes), Err(XmlDocParseFailed { .. })));
    let bytes = archive_of(&[("META-INF/container.xml", "<container/>")]);
    assert!(matches!(decode_archive(&bytes), Err(NodeNotFound { tag, .. }) if tag == "rootfiles"));
}

#[test]
fn bytes_that_are_no_archive_fail() {
    assert!(matches!(decode_archive(b"not a zip"), Err(UnzipFailed { .. })));
}
