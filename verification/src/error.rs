//! The errors of opening and asking a publication.

use vstd::prelude::*;

use crate::package::Error;

verus! {

/// The archive is no zip archive.
#[derive(Clone, Copy, Debug, PartialEq, Eq, Structural)]
pub struct ArchiveErr;

/// The container file is missing, or names no package document.
#[derive(Clone, Copy, Debug, PartialEq, Eq, Structural)]
pub struct ContainerFileErr;

/// No resource has the URL that was asked for.
#[derive(Clone, Copy, Debug, PartialEq, Eq, Structural)]
pub struct UrlNotFoundErr;

/// Why an archive is no publication.
#[derive(Clone, Copy, Debug, PartialEq, Eq, Structural)]
pub enum EpubError {
    Archive(ArchiveErr),
    ContainerFile(ContainerFileErr),
    PackageDoc(Error),
    /// The `href` of a manifest item does not resolve to a URL.
    InvalidHref,
}

impl ArchiveErr {
    /// The message shown for this error.
    pub fn message(&self) -> (r: String)
        ensures
            r@ == "EPUB archive structure has issues"@,
    {
        "EPUB archive structure has issues".to_owned()
    }
}

impl ContainerFileErr {
    /// The message shown for this error.
    pub fn message(&self) -> (r: String)
        ensures
            r@ == "EPUB container file is missing or invalid"@,
    {
        "EPUB container file is missing or invalid".to_owned()
    }
}

impl UrlNotFoundErr {
    /// The message shown for this error.
    pub fn message(&self) -> (r: String)
        ensures
            r@ == "No resource at given URL"@,
    {
        "No resource at given URL".to_owned()
    }
}

impl EpubError {
    /// The message shown for this error: that of the error it holds, or
    /// its own.
    pub fn message(&self) -> (r: String)
        ensures
            r@ == match *self {
                EpubError::Archive(_) => "EPUB archive structure has issues"@,
                EpubError::ContainerFile(_) => "EPUB container file is missing or invalid"@,
                EpubError::PackageDoc(Error::Generic) =>
                    "EPUB package document is missing or invalid"@,
                EpubError::PackageDoc(Error::Manifest) =>
                    "EPUB package document has invalid manifest"@,
                EpubError::PackageDoc(Error::Spine) => "EPUB package document has invalid spine"@,
                EpubError::InvalidHref => "EPUB contains invalid href"@,
            },
    {
        match self {
            EpubError::Archive(e) => e.message(),
            EpubError::ContainerFile(e) => e.message(),
            EpubError::PackageDoc(e) => e.message(),
            EpubError::InvalidHref => "EPUB contains invalid href".to_owned(),
        }
    }
}

} // verus!
