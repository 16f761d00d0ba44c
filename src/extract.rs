//! Typed values read from an element's attributes and leaf children, with an
//! error that names the element, the attribute or child, and the target type.
use vstd::prelude::*;
use crate::error::{Error, ErrorView, result_view};
use crate::scalar::{char_of, parse_char, parse_u16, parse_u8, u16_of, u8_of};
use crate::xml::{XmlNode, attribute, children_tagged, count_tagged, find_tagged, node_attr};

verus! {

pub open spec fn text_view(o: Option<String>) -> Option<Seq<char>> {
    match o {
        Some(s) => Some(s@),
        None => None,
    }
}

pub open spec fn text_result_view(r: Result<Option<String>, Error>) -> Result<Option<Seq<char>>, ErrorView> {
    match r {
        Ok(o) => Ok(text_view(o)),
        Err(e) => Err(e@),
    }
}

/// A required attribute: its value, or an error naming it and the element.
pub open spec fn attr_spec(node: XmlNode, name: Seq<char>) -> Result<Seq<char>, ErrorView> {
    match node_attr(node, name) {
        Some(v) => Ok(v),
        None => Err(ErrorView::AttrNotFound { attr: name, tag: node.tag@ }),
    }
}

pub open spec fn attr_parse_failed(node: XmlNode, name: Seq<char>, v: Seq<char>, ty: Seq<char>) -> ErrorView {
    ErrorView::AttrValueParseFailed { attr: name, tag: node.tag@, v: v, ty: ty }
}

/// An optional attribute read as a `u8`.
pub open spec fn optional_attr_u8_spec(node: XmlNode, name: Seq<char>) -> Result<Option<u8>, ErrorView> {
    match node_attr(node, name) {
        None => Ok(None),
        Some(v) => match u8_of(v) {
            Some(x) => Ok(Some(x)),
            None => Err(attr_parse_failed(node, name, v, "u8"@)),
        },
    }
}

/// A required attribute read as a `u16`.
pub open spec fn attr_u16_spec(node: XmlNode, name: Seq<char>) -> Result<u16, ErrorView> {
    match attr_spec(node, name) {
        Err(e) => Err(e),
        Ok(v) => match u16_of(v) {
            Some(x) => Ok(x),
            None => Err(attr_parse_failed(node, name, v, "u16"@)),
        },
    }
}

/// The text of the at most one child tagged `name`.
pub open spec fn chd_text_spec(node: XmlNode, name: Seq<char>) -> Result<Option<Seq<char>>, ErrorView> {
    let m = children_tagged(node, name);
    if m.len() == 0 {
        Ok(None)
    } else if m.len() > 1 {
        Err(ErrorView::DuplicatedNodesFound { tag: name, parent_tag: node.tag@ })
    } else {
        match m[0].text {
            Some(t) => Ok(Some(t@)),
            None => Err(ErrorView::NodeTextEmpty { tag: name }),
        }
    }
}

/// The text of the exactly one child tagged `name`.
pub open spec fn required_chd_text_spec(node: XmlNode, name: Seq<char>) -> Result<Seq<char>, ErrorView> {
    match chd_text_spec(node, name) {
        Err(e) => Err(e),
        Ok(None) => Err(ErrorView::NodeNotFound { tag: name, parent_tag: node.tag@ }),
        Ok(Some(t)) => Ok(t),
    }
}

pub open spec fn text_parse_failed(name: Seq<char>, t: Seq<char>, ty: Seq<char>) -> ErrorView {
    ErrorView::NodeTextParseFailed { tag: name, text: t, ty: ty }
}

/// The optional child `name` read as a `u8`.
pub open spec fn optional_chd_u8_spec(node: XmlNode, name: Seq<char>) -> Result<Option<u8>, ErrorView> {
    match chd_text_spec(node, name) {
        Err(e) => Err(e),
        Ok(None) => Ok(None),
        Ok(Some(t)) => match u8_of(t) {
            Some(x) => Ok(Some(x)),
            None => Err(text_parse_failed(name, t, "u8"@)),
        },
    }
}

/// The required child `name` read as a `u8`.
pub open spec fn chd_u8_spec(node: XmlNode, name: Seq<char>) -> Result<u8, ErrorView> {
    match optional_chd_u8_spec(node, name) {
        Err(e) => Err(e),
        Ok(None) => Err(ErrorView::NodeNotFound { tag: name, parent_tag: node.tag@ }),
        Ok(Some(x)) => Ok(x),
    }
}

/// The required child `name` read as a `char`.
pub open spec fn chd_char_spec(node: XmlNode, name: Seq<char>) -> Result<char, ErrorView> {
    match required_chd_text_spec(node, name) {
        Err(e) => Err(e),
        Ok(t) => match char_of(t) {
            Some(c) => Ok(c),
            None => Err(text_parse_failed(name, t, "char"@)),
        },
    }
}

/// The attribute `attr` of `node`, if present.
pub fn parse_optional_attr(node: &XmlNode, attr: &str) -> (r: Result<Option<String>, Error>)
    ensures
        text_result_view(r) == Ok::<Option<Seq<char>>, ErrorView>(node_attr(*node, attr@)),
{
    Ok(attribute(node, attr))
}

/// The attribute `attr` of `node`; `AttrNotFound` when it is absent.
pub fn parse_attr(node: &XmlNode, attr: &str) -> (r: Result<String, Error>)
    ensures
        result_view(r) == attr_spec(*node, attr@),
{
    match attribute(node, attr) {
        Some(v) => Ok(v),
        None => Err(Error::AttrNotFound { attr: attr.to_owned(), tag: node.tag.clone() }),
    }
}

/// The attribute `attr` of `node` as a `u8`, if present.
pub fn parse_optional_attr_u8(node: &XmlNode, attr: &str) -> (r: Result<Option<u8>, Error>)
    ensures
        result_view(r) == optional_attr_u8_spec(*node, attr@),
{
    match attribute(node, attr) {
        None => Ok(None),
        Some(v) => match parse_u8(v.as_str()) {
            Some(x) => Ok(Some(x)),
            None => Err(
                Error::AttrValueParseFailed {
                    attr: attr.to_owned(),
                    tag: node.tag.clone(),
                    v: v,
                    ty: "u8".to_owned(),
                },
            ),
        },
    }
}

/// The attribute `attr` of `node` as a `u16`; `AttrNotFound` when it is absent.
pub fn parse_attr_u16(node: &XmlNode, attr: &str) -> (r: Result<u16, Error>)
    ensures
        result_view(r) == attr_u16_spec(*node, attr@),
{
    let v = parse_attr(node, attr)?;
    match parse_u16(v.as_str()) {
        Some(x) => Ok(x),
        None => Err(
            Error::AttrValueParseFailed {
                attr: attr.to_owned(),
                tag: node.tag.clone(),
                v: v,
                ty: "u16".to_owned(),
            },
        ),
    }
}

/// The text of the child tagged `name`, if there is one; `DuplicatedNodesFound`
/// when there are several, `NodeTextEmpty` when it holds no text.
pub fn parse_optional_chd_text(node: &XmlNode, name: &str) -> (r: Result<Option<String>, Error>)
    ensures
        text_result_view(r) == chd_text_spec(*node, name@),
{
    let n = count_tagged(node, name);
    if n == 0 {
        return Ok(None);
    }
    if n > 1 {
        return Err(
            Error::DuplicatedNodesFound { tag: name.to_owned(), parent_tag: node.tag.clone() },
        );
    }
    match find_tagged(node, name) {
        Some(i) => match &node.children[i].text {
            Some(t) => Ok(Some(t.clone())),
            None => Err(Error::NodeTextEmpty { tag: name.to_owned() }),
        },
        None => Ok(None),
    }
}

/// The text of the one child tagged `name`; `NodeNotFound` when there is none.
pub fn parse_chd_text(node: &XmlNode, name: &str) -> (r: Result<String, Error>)
    ensures
        result_view(r) == required_chd_text_spec(*node, name@),
{
    match parse_optional_chd_text(node, name)? {
        Some(t) => Ok(t),
        None => Err(Error::NodeNotFound { tag: name.to_owned(), parent_tag: node.tag.clone() }),
    }
}

/// The child tagged `name` read as a `u8`, if there is one.
pub fn parse_optional_chd_text_u8(node: &XmlNode, name: &str) -> (r: Result<Option<u8>, Error>)
    ensures
        result_view(r) == optional_chd_u8_spec(*node, name@),
{
    match parse_optional_chd_text(node, name)? {
        None => Ok(None),
        Some(t) => match parse_u8(t.as_str()) {
            Some(x) => Ok(Some(x)),
            None => Err(Error::NodeTextParseFailed { tag: name.to_owned(), text: t, ty: "u8".to_owned() }),
        },
    }
}

/// The one child tagged `name` read as a `u8`.
pub fn parse_chd_text_u8(node: &XmlNode, name: &str) -> (r: Result<u8, Error>)
    ensures
        result_view(r) == chd_u8_spec(*node, name@),
{
    match parse_optional_chd_text_u8(node, name)? {
        Some(x) => Ok(x),
        None => Err(Error::NodeNotFound { tag: name.to_owned(), parent_tag: node.tag.clone() }),
    }
}

/// The one child tagged `name` read as a `char`.
pub fn parse_chd_text_char(node: &XmlNode, name: &str) -> (r: Result<char, Error>)
    ensures
        result_view(r) == chd_char_spec(*node, name@),
{
    let t = parse_chd_text(node, name)?;
    match parse_char(t.as_str()) {
        Some(c) => Ok(c),
        None => Err(Error::NodeTextParseFailed { tag: name.to_owned(), text: t, ty: "char".to_owned() }),
    }
}

} // verus!
