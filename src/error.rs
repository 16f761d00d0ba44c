//! The errors of a decode, and their mathematical view.
use vstd::prelude::*;

verus! {

/// Everything that can stop a decode.
#[derive(Debug)]
pub enum Error {
    /// The archive is not a readable zip archive, or lacks an entry; `details`
    /// is the zip reader's message.
    UnzipFailed { details: String },
    /// An archive entry could not be read as text; `details` is the message.
    Io { details: String },
    /// The XML text is not well formed; `details` is the parser's message.
    XmlDocParseFailed { details: String },
    /// A required single child element is absent.
    NodeNotFound { tag: String, parent_tag: String },
    /// A leaf element that may appear at most once appears more often.
    DuplicatedNodesFound { tag: String, parent_tag: String },
    /// No member of a mutually exclusive group of elements is present.
    ExclusiveNodeGroupNotFound { tags: Vec<String>, parent_tag: String },
    /// More than one member of a mutually exclusive group is present.
    ExclusiveNodeFound { tags: Vec<String>, parent_tag: String },
    /// A required attribute is absent.
    AttrNotFound { attr: String, tag: String },
    /// The text of a leaf element does not parse as the target type.
    NodeTextParseFailed { tag: String, text: String, ty: String },
    /// An attribute value does not parse as the target type.
    AttrValueParseFailed { attr: String, tag: String, v: String, ty: String },
    /// A leaf element holds no text.
    NodeTextEmpty { tag: String },
}

/// The view of an [`Error`]: its variant with each string as a character sequence.
pub enum ErrorView {
    UnzipFailed { details: Seq<char> },
    Io { details: Seq<char> },
    XmlDocParseFailed { details: Seq<char> },
    NodeNotFound { tag: Seq<char>, parent_tag: Seq<char> },
    DuplicatedNodesFound { tag: Seq<char>, parent_tag: Seq<char> },
    ExclusiveNodeGroupNotFound { tags: Seq<Seq<char>>, parent_tag: Seq<char> },
    ExclusiveNodeFound { tags: Seq<Seq<char>>, parent_tag: Seq<char> },
    AttrNotFound { attr: Seq<char>, tag: Seq<char> },
    NodeTextParseFailed { tag: Seq<char>, text: Seq<char>, ty: Seq<char> },
    AttrValueParseFailed { attr: Seq<char>, tag: Seq<char>, v: Seq<char>, ty: Seq<char> },
    NodeTextEmpty { tag: Seq<char> },
}

pub open spec fn strings_view(v: Seq<String>) -> Seq<Seq<char>> {
    v.map_values(|s: String| s@)
}

impl View for Error {
    type V = ErrorView;

    open spec fn view(&self) -> ErrorView {
        match self {
            Error::UnzipFailed { details } => ErrorView::UnzipFailed { details: details@ },
            Error::Io { details } => ErrorView::Io { details: details@ },
            Error::XmlDocParseFailed { details } => ErrorView::XmlDocParseFailed {
                details: details@,
            },
            Error::NodeNotFound { tag, parent_tag } => ErrorView::NodeNotFound {
                tag: tag@,
                parent_tag: parent_tag@,
            },
            Error::DuplicatedNodesFound { tag, parent_tag } => ErrorView::DuplicatedNodesFound {
                tag: tag@,
                parent_tag: parent_tag@,
            },
            Error::ExclusiveNodeGroupNotFound { tags, parent_tag } =>
                ErrorView::ExclusiveNodeGroupNotFound {
                tags: strings_view(tags@),
                parent_tag: parent_tag@,
            },
            Error::ExclusiveNodeFound { tags, parent_tag } => ErrorView::ExclusiveNodeFound {
                tags: strings_view(tags@),
                parent_tag: parent_tag@,
            },
            Error::AttrNotFound { attr, tag } => ErrorView::AttrNotFound { attr: attr@, tag: tag@ },
            Error::NodeTextParseFailed { tag, text, ty } => ErrorView::NodeTextParseFailed {
                tag: tag@,
                text: text@,
                ty: ty@,
            },
            Error::AttrValueParseFailed { attr, tag, v, ty } => ErrorView::AttrValueParseFailed {
                attr: attr@,
                tag: tag@,
                v: v@,
                ty: ty@,
            },
            Error::NodeTextEmpty { tag } => ErrorView::NodeTextEmpty { tag: tag@ },
        }
    }
}

/// The view of a decode result: the value's view, or the error's.
pub open spec fn result_view<T: View>(r: Result<T, Error>) -> Result<T::V, ErrorView> {
    match r {
        Ok(v) => Ok(v@),
        Err(e) => Err(e@),
    }
}

} // verus!
