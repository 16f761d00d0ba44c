//! Decoding of compressed score archives into a typed score model.
//!
//! An XML document is held as an [`xml::XmlNode`] tree; the typed value
//! extraction in [`extract`] and the record mappers in [`score`] work on it,
//! [`manifest`] picks the score document named by an archive's manifest, and
//! [`archive`] runs the whole decode on an archive's bytes.
pub mod archive;
pub mod error;
pub mod extract;
pub mod manifest;
pub mod scalar;
pub mod score;
pub mod xml;
