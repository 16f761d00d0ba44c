//! Finding the score document that an archive's manifest names.
use vstd::prelude::*;
use crate::error::{Error, ErrorView, result_view};
use crate::xml::{
    XmlNode, attribute, children_tagged, find_tagged, node_attr, parse_document, str_eq, tagged,
    xml_root_of,
};

verus! {

/// The path of the manifest inside an archive.
pub const MANIFEST_PATH: &'static str = "META-INF/container.xml";

/// The media type that marks a score document.
pub open spec fn score_media_type() -> Seq<char> {
    "application/vnd.recordare.musicxml+xml"@
}

/// A `rootfile` may be the score when its media type is the score's or absent.
pub open spec fn is_score_candidate(n: XmlNode) -> bool {
    match node_attr(n, "media-type"@) {
        None => true,
        Some(v) => v == score_media_type(),
    }
}

/// The first node of `s` that may be the score.
pub open spec fn first_candidate(s: Seq<XmlNode>) -> Option<XmlNode>
    decreases s.len(),
{
    if s.len() == 0 {
        None
    } else {
        match first_candidate(s.drop_last()) {
            Some(f) => Some(f),
            None => if is_score_candidate(s.last()) {
                Some(s.last())
            } else {
                None
            },
        }
    }
}

/// The path of the score document named by the manifest's root element.
pub open spec fn score_path_spec(root: XmlNode) -> Result<Seq<char>, ErrorView> {
    let rf = children_tagged(root, "rootfiles"@);
    if rf.len() == 0 {
        Err(ErrorView::NodeNotFound { tag: "rootfiles"@, parent_tag: root.tag@ })
    } else {
        match first_candidate(children_tagged(rf[0], "rootfile"@)) {
            None => Err(ErrorView::NodeNotFound { tag: "rootfile"@, parent_tag: rf[0].tag@ }),
            Some(f) => rootfile_path(f),
        }
    }
}

/// The `full-path` of a chosen `rootfile`.
pub open spec fn rootfile_path(f: XmlNode) -> Result<Seq<char>, ErrorView> {
    match node_attr(f, "full-path"@) {
        None => Err(ErrorView::AttrNotFound { attr: "full-path"@, tag: "rootfile"@ }),
        Some(p) => Ok(p),
    }
}

proof fn lemma_first_candidate_extends(s: Seq<XmlNode>, tag: Seq<char>, k: int)
    requires
        0 <= k <= s.len(),
        first_candidate(tagged(s.subrange(0, k), tag)) is Some,
    ensures
        first_candidate(tagged(s, tag)) == first_candidate(tagged(s.subrange(0, k), tag)),
    decreases s.len() - k,
{
    if k < s.len() {
        let a = s.subrange(0, k + 1);
        assert(a.drop_last() =~= s.subrange(0, k));
        let p = tagged(s.subrange(0, k), tag);
        if a.last().tag@ == tag {
            assert(p.push(a.last()).drop_last() =~= p);
        }
        lemma_first_candidate_extends(s, tag, k + 1);
    } else {
        assert(s.subrange(0, k) =~= s);
    }
}

proof fn lemma_first_candidate_none_when_earlier_miss(s: Seq<XmlNode>, i: int)
    requires
        0 <= i <= s.len(),
        forall|j: int| 0 <= j < i ==> !is_score_candidate(#[trigger] s[j]),
    ensures
        first_candidate(s.subrange(0, i)) is None,
    decreases i,
{
    if i > 0 {
        assert(s.subrange(0, i).drop_last() =~= s.subrange(0, i - 1));
        lemma_first_candidate_none_when_earlier_miss(s, i - 1);
    }
}

/// Whether `n` may be the score: its media type is absent or the score's.
fn score_candidate(n: &XmlNode) -> (r: bool)
    ensures
        r == is_score_candidate(*n),
{
    match attribute(n, "media-type") {
        None => true,
        Some(v) => str_eq(v.as_str(), "application/vnd.recordare.musicxml+xml"),
    }
}

/// The path of the score document that a manifest's root element names: the
/// `full-path` of the first `rootfile` under `rootfiles` whose media type is
/// the score's or absent.
pub fn select_score_path(root: &XmlNode) -> (r: Result<String, Error>)
    ensures
        result_view(r) == score_path_spec(*root),
        // a rootfile without media type is taken when no earlier one may be the score
        ({
            let rf = children_tagged(*root, "rootfiles"@);
            let files = children_tagged(rf[0], "rootfile"@);
            forall|i: int|
                rf.len() > 0 && 0 <= i < files.len() && node_attr(#[trigger] files[i], "media-type"@) is None
                    && (forall|j: int| 0 <= j < i ==> !is_score_candidate(#[trigger] files[j]))
                    ==> result_view(r) == rootfile_path(files[i])
        }),
        // with no rootfile at all, the rootfile is reported missing
        ({
            let rf = children_tagged(*root, "rootfiles"@);
            rf.len() > 0 && children_tagged(rf[0], "rootfile"@).len() == 0 ==> (r matches Err(
                Error::NodeNotFound { tag, .. },
            ) && tag@ == "rootfile"@)
        }),
{
    let r = find_score_path(root);
    proof {
        let rf = children_tagged(*root, "rootfiles"@);
        if rf.len() > 0 {
            let files = children_tagged(rf[0], "rootfile"@);
            assert forall|i: int|
                0 <= i < files.len() && node_attr(files[i], "media-type"@) is None && (forall|
                    j: int,
                | 0 <= j < i ==> !is_score_candidate(#[trigger] files[j])) implies first_candidate(
                files,
            ) == Some(files[i]) by {
                lemma_first_candidate_none_when_earlier_miss(files, i);
                let a = files.subrange(0, i + 1);
                assert(a.drop_last() =~= files.subrange(0, i));
                lemma_first_candidate_extends_plain(files, i + 1);
            }
        }
    }
    r
}

fn find_score_path(root: &XmlNode) -> (r: Result<String, Error>)
    ensures
        result_view(r) == score_path_spec(*root),
{
    let rf_index = find_tagged(root, "rootfiles");
    let rfi = match rf_index {
        None => {
            return Err(
                Error::NodeNotFound { tag: "rootfiles".to_owned(), parent_tag: root.tag.clone() },
            );
        },
        Some(i) => i,
    };
    let rootfiles = &root.children[rfi];
    let ch = &rootfiles.children;
    let mut i: usize = 0;
    while i < ch.len()
        invariant
            ch@ == rootfiles.children@,
            children_tagged(*root, "rootfiles"@).len() > 0,
            *rootfiles == children_tagged(*root, "rootfiles"@)[0],
            i <= ch@.len(),
            first_candidate(tagged(ch@.subrange(0, i as int), "rootfile"@)) is None,
        decreases ch@.len() - i,
    {
        let a = Ghost(ch@.subrange(0, i + 1));
        assert(a@.drop_last() =~= ch@.subrange(0, i as int));
        assert(a@.last() == ch@[i as int]);
        let p = Ghost(tagged(ch@.subrange(0, i as int), "rootfile"@));
        assert(p@.push(ch@[i as int]).drop_last() =~= p@);
        if str_eq(ch[i].tag.as_str(), "rootfile") && score_candidate(&ch[i]) {
            proof {
                assert(tagged(a@, "rootfile"@) == p@.push(ch@[i as int]));
                assert(first_candidate(p@.push(ch@[i as int])) == Some(ch@[i as int]));
                lemma_first_candidate_extends(ch@, "rootfile"@, i + 1);
            }
            return match attribute(&ch[i], "full-path") {
                Some(path) => Ok(path),
                None => Err(
                    Error::AttrNotFound { attr: "full-path".to_owned(), tag: "rootfile".to_owned() },
                ),
            };
        }
        i = i + 1;
    }
    assert(ch@.subrange(0, ch@.len() as int) =~= ch@);
    Err(Error::NodeNotFound { tag: "rootfile".to_owned(), parent_tag: rootfiles.tag.clone() })
}

proof fn lemma_first_candidate_extends_plain(s: Seq<XmlNode>, k: int)
    requires
        0 <= k <= s.len(),
        first_candidate(s.subrange(0, k)) is Some,
    ensures
        first_candidate(s) == first_candidate(s.subrange(0, k)),
    decreases s.len() - k,
{
    if k < s.len() {
        assert(s.subrange(0, k + 1).drop_last() =~= s.subrange(0, k));
        lemma_first_candidate_extends_plain(s, k + 1);
    } else {
        assert(s.subrange(0, k) =~= s);
    }
}

/// Parses a manifest's text and returns the path of the score document it names.
pub fn score_path_from_manifest(manifest_xml: &str) -> (r: Result<String, Error>)
    ensures
        xml_root_of(manifest_xml@) is None ==> r matches Err(Error::XmlDocParseFailed { .. }),
        xml_root_of(manifest_xml@) matches Some(root) ==> result_view(r) == score_path_spec(root),
{
    let root = parse_document(manifest_xml)?;
    select_score_path(&root)
}

} // verus!
