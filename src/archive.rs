//! Decoding a whole score archive held in memory.
use vstd::prelude::*;
use crate::error::{Error, result_view};
use crate::manifest::{score_path_from_manifest, score_path_spec};
use crate::score::{FromNode, Score};
use crate::xml::xml_root_of;

verus! {

/// The text of the entry `path` of the zip archive `archive`, when the archive
/// can be read and holds that entry as UTF-8 text.
pub uninterp spec fn archive_entry_text(archive: Seq<u8>, path: Seq<char>) -> Option<Seq<char>>;

/// Relies on zip::ZipArchive::new and ZipArchive::by_name, and on reading the
/// entry with std::io::Read::read_to_string: the entry's text, which depends
/// on the bytes and the path alone. A failure of the zip reader becomes
/// `UnzipFailed`, one of the read `Io`.
#[verifier::external_body]
fn read_entry_text(archive: &[u8], path: &str) -> (r: Result<String, Error>)
    ensures
        r is Ok <==> archive_entry_text(archive@, path@) is Some,
        r matches Ok(t) ==> archive_entry_text(archive@, path@) == Some(t@),
        r matches Err(e) ==> (e is UnzipFailed || e is Io),
{
    let unzip = |e: zip::result::ZipError| Error::UnzipFailed { details: e.to_string() };
    let mut zip = zip::ZipArchive::new(std::io::Cursor::new(archive)).map_err(unzip)?;
    let mut entry = zip.by_name(path).map_err(unzip)?;
    let mut text = String::new();
    std::io::Read::read_to_string(&mut entry, &mut text)
        .map_err(|e| Error::Io { details: e.to_string() })?;
    Ok(text)
}

/// The manifest's entry path, as a sequence of characters.
pub open spec fn manifest_path_spec() -> Seq<char> {
    "META-INF/container.xml"@
}

/// Decodes a score archive: reads the manifest, finds the score document it
/// names, and builds the score from that document.
pub fn decode_archive(archive: &[u8]) -> (r: Result<Score, Error>)
    ensures
        archive_entry_text(archive@, manifest_path_spec()) is None ==> (r matches Err(e) && (e is UnzipFailed || e is Io)),
        archive_entry_text(archive@, manifest_path_spec()) matches Some(m) ==> {
            &&& xml_root_of(m) is None ==> (r matches Err(e) && e is XmlDocParseFailed)
            &&& xml_root_of(m) matches Some(mroot) ==> match score_path_spec(mroot) {
                Err(e) => result_view(r) == Err::<crate::score::ScoreView, _>(e),
                Ok(p) => match archive_entry_text(archive@, p) {
                    None => (r matches Err(e) && (e is UnzipFailed || e is Io)),
                    Some(x) => match xml_root_of(x) {
                        None => (r matches Err(e) && e is XmlDocParseFailed),
                        Some(root) => result_view(r) == Score::node_model(root),
                    },
                },
            }
        },
{
    let manifest_path = crate::manifest::MANIFEST_PATH;
    assert(manifest_path@ == manifest_path_spec());
    let manifest = read_entry_text(archive, manifest_path)?;
    let path = score_path_from_manifest(manifest.as_str())?;
    let xml = read_entry_text(archive, path.as_str())?;
    Score::from_xml(xml.as_str())
}

} // verus!
