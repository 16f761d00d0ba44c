//! A parsed XML document as a tree of plain values.
use vstd::prelude::*;
use vstd::string::StrSliceExecFns;
use crate::error::Error;

verus! {

/// One node of a parsed document: an element, or a text or comment node
/// (whose tag is empty).
#[derive(Debug)]
pub struct XmlNode {
    /// The local tag name; empty for a node that is not an element.
    pub tag: String,
    /// The attributes in document order, as (name, value).
    pub attributes: Vec<(String, String)>,
    /// The node's text: for an element, that of its first child when that is text.
    pub text: Option<String>,
    /// The child nodes in document order.
    pub children: Vec<XmlNode>,
}

#[verifier::external_type_specification]
#[verifier::external_body]
pub struct ExXmlNodeRef<'a, 'input: 'a>(roxmltree::Node<'a, 'input>);

/// The root element that roxmltree makes of a text, if the text is well formed.
pub uninterp spec fn xml_root_of(text: Seq<char>) -> Option<XmlNode>;

/// Relies on roxmltree::Document::parse: parses the text, and on success the
/// result is its root element with tag names, attributes, texts and children;
/// on failure, the message of roxmltree's error.
#[verifier::external_body]
pub(crate) fn parse_root(text: &str) -> (r: Result<XmlNode, String>)
    ensures
        r is Ok <==> xml_root_of(text@) is Some,
        r matches Ok(n) ==> xml_root_of(text@) == Some(n),
{
    let doc = roxmltree::Document::parse(text).map_err(|e| e.to_string())?;
    Ok(node_tree(doc.root_element()))
}

/// Parses XML text into its root element; `XmlDocParseFailed` when the text
/// is not well formed.
pub fn parse_document(xml: &str) -> (r: Result<XmlNode, Error>)
    ensures
        xml_root_of(xml@) is None ==> r matches Err(Error::XmlDocParseFailed { .. }),
        xml_root_of(xml@) matches Some(root) ==> r matches Ok(n) && n == root,
{
    match parse_root(xml) {
        Ok(n) => Ok(n),
        Err(details) => Err(Error::XmlDocParseFailed { details }),
    }
}

/// Relies on roxmltree's Node accessors (tag_name, attributes, text, children)
/// to copy a node and its subtree into plain values, one node for one.
#[verifier::external_body]
fn node_tree(n: roxmltree::Node) -> XmlNode {
    XmlNode {
        tag: n.tag_name().name().to_owned(),
        attributes: n.attributes().map(|a| (a.name().to_owned(), a.value().to_owned())).collect(),
        text: n.text().map(|t| t.to_owned()),
        children: n.children().map(node_tree).collect(),
    }
}

/// Whether two strings hold the same characters.
pub fn str_eq(a: &str, b: &str) -> (r: bool)
    ensures
        r == (a@ == b@),
{
    let n = a.unicode_len();
    if n != b.unicode_len() {
        return false;
    }
    let mut i: usize = 0;
    while i < n
        invariant
            n == a@.len(),
            n == b@.len(),
            i <= n,
            forall|j: int| 0 <= j < i ==> a@[j] == b@[j],
        decreases n - i,
    {
        if a.get_char(i) != b.get_char(i) {
            return false;
        }
        i = i + 1;
    }
    assert(a@ =~= b@);
    true
}

/// The nodes of `s` whose tag is `tag`, in order.
pub open spec fn tagged(s: Seq<XmlNode>, tag: Seq<char>) -> Seq<XmlNode>
    decreases s.len(),
{
    if s.len() == 0 {
        Seq::empty()
    } else {
        let rest = tagged(s.drop_last(), tag);
        if s.last().tag@ == tag {
            rest.push(s.last())
        } else {
            rest
        }
    }
}

/// The direct children of `node` whose tag is `tag`, in document order.
pub open spec fn children_tagged(node: XmlNode, tag: Seq<char>) -> Seq<XmlNode> {
    tagged(node.children@, tag)
}

/// The value of the first attribute named `name`, if any.
pub open spec fn attr_value(attrs: Seq<(String, String)>, name: Seq<char>) -> Option<Seq<char>>
    decreases attrs.len(),
{
    if attrs.len() == 0 {
        None
    } else if attrs[0].0@ == name {
        Some(attrs[0].1@)
    } else {
        attr_value(attrs.drop_first(), name)
    }
}

/// The value of the attribute `name` of `node`.
pub open spec fn node_attr(node: XmlNode, name: Seq<char>) -> Option<Seq<char>> {
    attr_value(node.attributes@, name)
}

/// The value of the attribute `name` of `node`, copied.
pub fn attribute(node: &XmlNode, name: &str) -> (r: Option<String>)
    ensures
        r matches Some(v) ==> node_attr(*node, name@) == Some(v@),
        r is None ==> node_attr(*node, name@) is None,
{
    let attrs = &node.attributes;
    let ghost len = attrs@.len() as int;
    let mut i: usize = 0;
    assert(attrs@.subrange(0, len) =~= attrs@);
    while i < attrs.len()
        invariant
            i <= len,
            len == attrs@.len(),
            node_attr(*node, name@) == attr_value(attrs@.subrange(i as int, len), name@),
        decreases len - i,
    {
        assert(attrs@.subrange(i as int, len).drop_first() =~= attrs@.subrange(i + 1, len));
        if str_eq(attrs[i].0.as_str(), name) {
            return Some(attrs[i].1.clone());
        }
        i = i + 1;
    }
    None
}

/// How many direct children of `node` have the tag `tag`.
pub fn count_tagged(node: &XmlNode, tag: &str) -> (r: usize)
    ensures
        r == children_tagged(*node, tag@).len(),
{
    let ch = &node.children;
    let mut i: usize = 0;
    let mut n: usize = 0;
    while i < ch.len()
        invariant
            ch@ == node.children@,
            i <= ch@.len(),
            n == tagged(ch@.subrange(0, i as int), tag@).len(),
            n <= i,
        decreases ch@.len() - i,
    {
        assert(ch@.subrange(0, i + 1).drop_last() =~= ch@.subrange(0, i as int));
        if str_eq(ch[i].tag.as_str(), tag) {
            n = n + 1;
        }
        i = i + 1;
    }
    assert(ch@.subrange(0, ch@.len() as int) =~= ch@);
    n
}

/// Appending nodes keeps the tagged nodes found so far at the front.
pub proof fn lemma_tagged_extends(s: Seq<XmlNode>, tag: Seq<char>, i: int)
    requires
        0 <= i <= s.len(),
    ensures
        tagged(s.subrange(0, i), tag).len() <= tagged(s, tag).len(),
        forall|k: int|
            0 <= k < tagged(s.subrange(0, i), tag).len() ==> #[trigger] tagged(s, tag)[k]
                == tagged(s.subrange(0, i), tag)[k],
    decreases s.len() - i,
{
    if i < s.len() {
        assert(s.subrange(0, i + 1).drop_last() =~= s.subrange(0, i));
        lemma_tagged_extends(s, tag, i + 1);
    } else {
        assert(s.subrange(0, i) =~= s);
    }
}

/// The index of the first direct child of `node` tagged `tag`, if any.
pub fn find_tagged(node: &XmlNode, tag: &str) -> (r: Option<usize>)
    ensures
        r is None ==> children_tagged(*node, tag@).len() == 0,
        r matches Some(i) ==> i < node.children@.len() && children_tagged(*node, tag@).len() > 0
            && node.children@[i as int] == children_tagged(*node, tag@)[0],
{
    let ch = &node.children;
    let mut i: usize = 0;
    while i < ch.len()
        invariant
            ch@ == node.children@,
            i <= ch@.len(),
            tagged(ch@.subrange(0, i as int), tag@).len() == 0,
        decreases ch@.len() - i,
    {
        assert(ch@.subrange(0, i + 1).drop_last() =~= ch@.subrange(0, i as int));
        if str_eq(ch[i].tag.as_str(), tag) {
            proof {
                let pre = ch@.subrange(0, i + 1);
                assert(pre.last() == ch@[i as int]);
                assert(tagged(pre, tag@) == tagged(pre.drop_last(), tag@).push(ch@[i as int]));
                lemma_tagged_extends(ch@, tag@, i + 1);
                assert(tagged(ch@, tag@)[0] == tagged(pre, tag@)[0]);
            }
            return Some(i);
        }
        i = i + 1;
    }
    assert(ch@.subrange(0, ch@.len() as int) =~= ch@);
    None
}

} // verus!
