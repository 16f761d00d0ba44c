use music_xml::error::Error;
use music_xml::error::Error::{
    AttrNotFound, AttrValueParseFailed, DuplicatedNodesFound, ExclusiveNodeFound,
    ExclusiveNodeGroupNotFound, NodeNotFound, NodeTextEmpty, NodeTextParseFailed,
    XmlDocParseFailed,
};
use music_xml::extract::{
    parse_attr, parse_attr_u16, parse_chd_text, parse_chd_text_char, parse_chd_text_u8,
    parse_optional_attr, parse_optional_attr_u8, parse_optional_chd_text,
};
use music_xml::score::{step_of_letter, Clef, FromNode, Note, NoteType, Pitch, Rest, Score};
use music_xml::xml::{parse_document, XmlNode};

fn root(xml: &str) -> XmlNode {
    parse_document(xml).unwrap()
}

#[test]
fn parse_attr_ok() {
    let node = root(r#"<slur type="start" />"#);

    let slur_ty = parse_attr(&node, "type");
    assert!(slur_ty.is_ok());
    assert_eq!(slur_ty.unwrap(), "start");
}

#[test]
fn parse_absent_attr_err() {
    let node = root(r#"<slur />"#);

    let slur_ty = parse_attr(&node, "type");
    assert!(slur_ty.is_err());
    assert!(matches!(slur_ty, Err(AttrNotFound { attr, tag }) if attr == "type" && tag == "slur" ));
}

#[test]
fn note_pitch_ok() {
    let xml = r#"
            <note>
                <pitch>
                    <step>E</step>
                    <octave>4</octave>
                </pitch>
                <duration>60</duration>
            </note>"#;
    let node = root(xml);

    let note = Note::from_node(&node);
    assert!(note.is_ok());
    assert_eq!(
        note.unwrap(),
        Note {
            note_type: NoteType::Pitch(Pitch {
                step: 3,
                alter: 0,
                octave: 4
            }),
            duration: 60
        }
    );
}

#[test]
fn note_rest_ok() {
    let xml = r#"
            <note>
                <rest />
                <duration>60</duration>
            </note>"#;
    let node = root(xml);

    let note = Note::from_node(&node);
    assert!(note.is_ok());
    assert_eq!(
        note.unwrap(),
        Note {
            note_type: NoteType::Rest(Rest()),
            duration: 60
        }
    );
}

#[test]
fn note_with_rest_and_pitch_is_exclusive_error() {
    let node = root("<note><rest/><pitch><step>C</step><octave>4</octave></pitch></note>");
    match Note::from_node(&node) {
        Err(ExclusiveNodeFound { tags, parent_tag }) => {
            assert_eq!(tags, vec!["rest".to_string(), "pitch".to_string()]);
            assert_eq!(parent_tag, "note");
        }
        other => panic!("unexpected {:?}", other),
    }
}

#[test]
fn note_without_rest_or_pitch_is_group_error() {
    let node = root("<note><duration>4</duration></note>");
    match Note::from_node(&node) {
        Err(ExclusiveNodeGroupNotFound { tags, parent_tag }) => {
            assert_eq!(tags, vec!["rest".to_string(), "pitch".to_string()]);
            assert_eq!(parent_tag, "note");
        }
        other => panic!("unexpected {:?}", other),
    }
}

#[test]
fn note_duration_defaults_to_zero() {
    let absent = Note::from_node(&root("<note><rest/></note>")).unwrap();
    assert_eq!(absent.duration, 0);
    let malformed = Note::from_node(&root("<note><rest/><duration>x</duration></note>")).unwrap();
    assert_eq!(malformed.duration, 0);
    let too_large = Note::from_node(&root("<note><rest/><duration>300</duration></note>")).unwrap();
    assert_eq!(too_large.duration, 0);
}

#[test]
fn step_letters_map_to_degrees() {
    let expected = [('A', 6), ('B', 7), ('C', 1), ('D', 2), ('E', 3), ('F', 4), ('G', 5)];
    for (c, d) in expected {
        assert_eq!(step_of_letter(c), Some(d));
    }
    assert_eq!(step_of_letter('H'), None);
    assert_eq!(step_of_letter('a'), None);
}

#[test]
fn pitch_with_other_step_fails() {
    let node = root("<pitch><step>H</step><octave>4</octave></pitch>");
    match Pitch::from_node(&node) {
        Err(NodeTextParseFailed { tag, text, .. }) => {
            assert_eq!(tag, "step");
            assert_eq!(text, "H");
        }
        other => panic!("unexpected {:?}", other),
    }
}

#[test]
fn pitch_reads_alter_and_octave() {
    let node = root("<pitch><step>B</step><alter>1</alter><octave>5</octave></pitch>");
    assert_eq!(
        Pitch::from_node(&node).unwrap(),
        Pitch {
            step: 7,
            alter: 1,
            octave: 5
        }
    );
}

#[test]
fn clef_number_defaults_to_one() {
    let c = Clef::from_node(&root("<clef><sign>G</sign><line>2</line></clef>")).unwrap();
    assert_eq!(
        c,
        Clef {
            number: 1,
            sign: 'G',
            line: Some(2)
        }
    );
    let c2 = Clef::from_node(&root(r#"<clef number="2"><sign>F</sign></clef>"#)).unwrap();
    assert_eq!(
        c2,
        Clef {
            number: 2,
            sign: 'F',
            line: None
        }
    );
}

#[test]
fn clef_with_bad_number_fails() {
    let r = Clef::from_node(&root(r#"<clef number="x"><sign>F</sign></clef>"#));
    match r {
        Err(AttrValueParseFailed { attr, tag, v, ty }) => {
            assert_eq!(attr, "number");
            assert_eq!(tag, "clef");
            assert_eq!(v, "x");
            assert_eq!(ty, "u8");
        }
        other => panic!("unexpected {:?}", other),
    }
}

#[test]
fn duplicated_leaf_is_rejected() {
    let node = root("<attributes><divisions>1</divisions><divisions>2</divisions><staves>1</staves></attributes>");
    match parse_chd_text_u8(&node, "divisions") {
        Err(DuplicatedNodesFound { tag, parent_tag }) => {
            assert_eq!(tag, "divisions");
            assert_eq!(parent_tag, "attributes");
        }
        other => panic!("unexpected {:?}", other),
    }
}

#[test]
fn empty_leaf_is_rejected() {
    let node = root("<clef><sign></sign></clef>");
    assert!(matches!(parse_chd_text(&node, "sign"), Err(NodeTextEmpty { tag }) if tag == "sign"));
}

#[test]
fn missing_leaf_is_not_found() {
    let node = root("<clef><line>2</line></clef>");
    assert!(matches!(
        parse_chd_text_char(&node, "sign"),
        Err(NodeNotFound { tag, parent_tag }) if tag == "sign" && parent_tag == "clef"
    ));
    assert_eq!(parse_optional_chd_text(&node, "sign").unwrap(), None);
    assert_eq!(parse_optional_chd_text(&node, "line").unwrap(), Some("2".to_string()));
}

#[test]
fn leaf_text_parse_failure_names_type() {
    let node = root("<pitch><octave>high</octave></pitch>");
    assert!(matches!(
        parse_chd_text_u8(&node, "octave"),
        Err(NodeTextParseFailed { tag, text, ty }) if tag == "octave" && text == "high" && ty == "u8"
    ));
    let node = root("<clef><sign>GF</sign></clef>");
    assert!(matches!(
        parse_chd_text_char(&node, "sign"),
        Err(NodeTextParseFailed { ty, .. }) if ty == "char"
    ));
}

#[test]
fn attribute_values_are_typed() {
    let node = root(r#"<measure number="+12" width="70000"/>"#);
    assert_eq!(parse_attr_u16(&node, "number").unwrap(), 12);
    assert!(matches!(parse_attr_u16(&node, "width"), Err(AttrValueParseFailed { .. })));
    assert!(matches!(parse_attr_u16(&node, "id"), Err(AttrNotFound { .. })));
    assert_eq!(parse_optional_attr(&node, "id").unwrap(), None);
    assert_eq!(parse_optional_attr(&node, "number").unwrap(), Some("+12".to_string()));
    assert_eq!(parse_optional_attr_u8(&node, "id").unwrap(), None);
}

#[test]
fn score_keeps_document_order() {
    let xml = r#"<score-partwise>
        <part id="P1">
            <measure number="1">
                <attributes><divisions>2</divisions><staves>2</staves>
                    <clef number="1"><sign>G</sign><line>2</line></clef>
                    <clef number="2"><sign>F</sign><line>4</line></clef>
                </attributes>
                <note><pitch><step>C</step><octave>4</octave></pitch><duration>2</duration></note>
                <note><rest/><duration>1</duration></note>
            </measure>
            <measure number="2">
                <note><pitch><step>A</step><alter>1</alter><octave>3</octave></pitch><duration>4</duration></note>
            </measure>
        </part>
        <part id="P2">
            <measure number="7"/>
        </part>
    </score-partwise>"#;
    let score = Score::from_xml(xml).unwrap();
    assert_eq!(score.parts.len(), 2);
    let m: Vec<u16> = score.parts[0].measures.iter().map(|m| m.number).collect();
    assert_eq!(m, vec![1, 2]);
    assert_eq!(score.parts[1].measures[0].number, 7);
    let attr = score.parts[0].measures[0].attr.as_ref().unwrap();
    assert_eq!(attr.divisions, 2);
    assert_eq!(attr.staves, 2);
    assert_eq!(attr.clef.iter().map(|c| c.sign).collect::<Vec<char>>(), vec!['G', 'F']);
    let notes = &score.parts[0].measures[0].notes;
    assert_eq!(notes.len(), 2);
    assert_eq!(notes[0].note_type, NoteType::Pitch(Pitch { step: 1, alter: 0, octave: 4 }));
    assert_eq!(notes[1].note_type, NoteType::Rest(Rest()));
    assert_eq!(
        score.parts[0].measures[1].notes[0].note_type,
        NoteType::Pitch(Pitch { step: 6, alter: 1, octave: 3 })
    );
    assert!(score.parts[1].measures[0].attr.is_none());
}

#[test]
fn measure_without_number_fails() {
    let r = Score::from_xml("<score-partwise><part><measure/></part></score-partwise>");
    assert!(matches!(r, Err(AttrNotFound { attr, tag }) if attr == "number" && tag == "measure"));
}

#[test]
fn malformed_xml_fails() {
    let r = Score::from_xml("<score-partwise><part>");
    assert!(matches!(r, Err(XmlDocParseFailed { .. })));
    let e: Result<XmlNode, Error> = parse_document("not xml");
    assert!(e.is_err());
}
