use music_xml::error::Error::{AttrNotFound, NodeNotFound};
use music_xml::manifest::{score_path_from_manifest, select_score_path, MANIFEST_PATH};
use music_xml::xml::parse_document;

#[test]
fn manifest_picks_score_media_type() {
    let xml = r#"<container><rootfiles>
        <rootfile full-path="cover.png" media-type="image/png"/>
        <rootfile full-path="score.xml" media-type="application/vnd.recordare.musicxml+xml"/>
    </rootfiles></container>"#;
    assert_eq!(score_path_from_manifest(xml).unwrap(), "score.xml");
}

#[test]
fn manifest_picks_rootfile_without_media_type() {
    let xml = r#"<container><rootfiles>
        <rootfile full-path="cover.png" media-type="image/png"/>
        <rootfile full-path="music.xml"/>
    </rootfiles></container>"#;
    let root = parse_document(xml).unwrap();
    assert_eq!(select_score_path(&root).unwrap(), "music.xml");
}

#[test]
fn manifest_without_rootfile_fails() {
    let xml = r#"<container><rootfiles></rootfiles></container>"#;
    let r = score_path_from_manifest(xml);
    assert!(matches!(r, Err(NodeNotFound { tag, parent_tag }) if tag == "rootfile" && parent_tag == "rootfiles"));
}

#[test]
fn manifest_without_rootfiles_fails() {
    let r = score_path_from_manifest("<container/>");
    assert!(matches!(r, Err(NodeNotFound { tag, parent_tag }) if tag == "rootfiles" && parent_tag == "container"));
}

#[test]
fn manifest_rootfile_without_path_fails() {
    let r = score_path_from_manifest("<container><rootfiles><rootfile/></rootfiles></container>");
    assert!(matches!(r, Err(AttrNotFound { attr, tag }) if attr == "full-path" && tag == "rootfile"));
}

#[test]
fn manifest_path_is_fixed() {
    assert_eq!(MANIFEST_PATH, "META-INF/container.xml");
}
