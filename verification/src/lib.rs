//! An EPUB container and package reader with a navigable document model.
//!
//! A publication is opened from the bytes of its archive
//! ([`open`], [`archive`]): the container file names the package
//! document ([`container`]), the package document is read event by event
//! into version, metadata, manifest and spine ([`xml`], [`parser`],
//! [`metadata`], [`manifest`], [`package`]), and the package is made
//! into a publication whose resources are found by URL and stepped
//! through in reading order ([`epub`], with what holds of every
//! publication in [`laws`]).
//!
//! The archive, the XML events and the URLs come from the `zip`,
//! `quick_xml` and `url` crates ([`archive`], [`xml_reader`],
//! [`address`]). What they hand out is named, not defined: every
//! contract of the library says what is made of those values.

pub mod address;
pub mod archive;
pub mod container;
pub mod epub;
pub mod error;
pub mod laws;
pub mod manifest;
pub mod metadata;
pub mod open;
pub mod package;
pub mod parser;
pub mod style;
pub mod text;
pub mod xml;
pub mod xml_reader;
