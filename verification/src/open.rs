//! Opening a publication from the bytes of its archive.

use vstd::prelude::*;

use crate::address::{url_join, url_joined, url_parse, url_parsed, url_text};
use crate::archive::{
    archive_of,
    ArchiveFailure,
    ArchiveModel,
    EpubArchive,
    ReadFailure,
};
use crate::container::{parse_container_file, rootfile_of, ContainerFailure};
use crate::epub::{assembled, Epub, EpubModel};
use crate::error::{ArchiveErr, ContainerFileErr, EpubError};
use crate::package::{Error, Failure, Package, PackageModel};
use crate::parser::package_of;
use crate::xml_reader::{ns_document, plain_document};

verus! {

/// Why an archive could not be opened as a publication: it is none, or
/// its bytes could not be had.
#[derive(Clone, Copy, Debug)]
pub enum OpenError {
    Epub(EpubError),
    Io(std::io::ErrorKind),
}

/// The error that a failed read of a document amounts to, where
/// `missing` is the error for a document that is not in the archive.
pub open spec fn read_error(failure: ReadFailure, missing: EpubError) -> OpenError {
    match failure {
        ReadFailure::UrlNotFound(_) => OpenError::Epub(missing),
        ReadFailure::Io(kind) => OpenError::Io(kind),
        ReadFailure::Archive(e) => OpenError::Epub(EpubError::Archive(e)),
    }
}

/// The URL of the package document of an archive whose entries stand
/// under `base`: what the container file at `META-INF/container.xml`
/// names.
pub open spec fn package_url_of(archive: ArchiveModel, base: Seq<char>) -> Result<
    Seq<char>,
    OpenError,
> {
    match url_joined(base, "META-INF/container.xml"@) {
        None => Err(OpenError::Epub(EpubError::ContainerFile(ContainerFileErr))),
        Some(container_url) => match archive.entry(container_url) {
            Err(failure) => Err(read_error(failure, EpubError::ContainerFile(ContainerFileErr))),
            Ok(container) => match rootfile_of(plain_document(container), base) {
                Err(ContainerFailure::Container(e)) => Err(
                    OpenError::Epub(EpubError::ContainerFile(e)),
                ),
                Err(ContainerFailure::Io(kind)) => Err(OpenError::Io(kind)),
                Ok(url) => Ok(url),
            },
        },
    }
}

/// The package that the document at `url` holds.
pub open spec fn package_in(archive: ArchiveModel, url: Seq<char>) -> Result<
    PackageModel,
    OpenError,
> {
    match archive.entry(url) {
        Err(failure) => Err(read_error(failure, EpubError::PackageDoc(Error::Generic))),
        Ok(document) => match package_of(ns_document(document)) {
            Err(Failure::Package(e)) => Err(OpenError::Epub(EpubError::PackageDoc(e))),
            Err(Failure::Io(kind)) => Err(OpenError::Io(kind)),
            Ok(package) => Ok(package),
        },
    }
}

/// The publication in an archive whose entries stand under `base`.
pub open spec fn publication_in(archive: ArchiveModel, base: Seq<char>) -> Result<
    EpubModel,
    OpenError,
> {
    match package_url_of(archive, base) {
        Err(e) => Err(e),
        Ok(url) => match package_in(archive, url) {
            Err(e) => Err(e),
            Ok(package) => match assembled(package, url) {
                Err(e) => Err(OpenError::Epub(e)),
                Ok(epub) => Ok(epub),
            },
        },
    }
}

/// The publication that `bytes` hold, with its archive. Everything in
/// the archive stands under the URL `epub:/`. Opening is all or
/// nothing: any defect of the archive, the container file, the package
/// document or a manifest `href` rejects the whole.
pub open spec fn opened(bytes: Seq<u8>) -> Result<(EpubModel, ArchiveModel), OpenError> {
    match url_parsed("epub:/"@) {
        None => Err(OpenError::Epub(EpubError::Archive(ArchiveErr))),
        Some(base) => match archive_of(bytes, base) {
            Err(ArchiveFailure::Archive(e)) => Err(OpenError::Epub(EpubError::Archive(e))),
            Err(ArchiveFailure::Io(kind)) => Err(OpenError::Io(kind)),
            Ok(archive) => match publication_in(archive, base) {
                Err(e) => Err(e),
                Ok(epub) => Ok((epub, archive)),
            },
        },
    }
}

/// The outcome of opening, publication and archive taken by their views.
pub open spec fn open_outcome(r: Result<(Epub, EpubArchive), OpenError>) -> Result<
    (EpubModel, ArchiveModel),
    OpenError,
> {
    match r {
        Ok((epub, archive)) => Ok((epub@, archive@)),
        Err(e) => Err(e),
    }
}

fn read_or(archive: &mut EpubArchive, url: &url::Url, missing: EpubError) -> (r: Result<
    Vec<u8>,
    OpenError,
>)
    ensures
        final(archive)@ == old(archive)@,
        match r {
            Ok(content) => old(archive)@.entry(url_text(*url)) == Ok::<Seq<u8>, ReadFailure>(
                content@,
            ),
            Err(e) => old(archive)@.entry(url_text(*url)) matches Err(failure) && e == read_error(
                failure,
                missing,
            ),
        },
{
    match archive.get_reader(url) {
        Ok(content) => Ok(content),
        Err(ReadFailure::UrlNotFound(_)) => Err(OpenError::Epub(missing)),
        Err(ReadFailure::Io(kind)) => Err(OpenError::Io(kind)),
        Err(ReadFailure::Archive(e)) => Err(OpenError::Epub(EpubError::Archive(e))),
    }
}

impl Epub {
    /// Finds the package document of an open archive and makes the
    /// publication of it.
    pub fn from_archive(archive: &mut EpubArchive, base_url: &url::Url) -> (r: Result<
        Epub,
        OpenError,
    >)
        ensures
            final(archive)@ == old(archive)@,
            match r {
                Ok(epub) => publication_in(old(archive)@, url_text(*base_url)) == Ok::<
                    EpubModel,
                    OpenError,
                >(epub@),
                Err(e) => publication_in(old(archive)@, url_text(*base_url)) == Err::<
                    EpubModel,
                    OpenError,
                >(e),
            },
    {
        let container_url = match url_join(base_url, "META-INF/container.xml") {
            Some(u) => u,
            None => {
                return Err(OpenError::Epub(EpubError::ContainerFile(ContainerFileErr)));
            },
        };
        let container = match read_or(
            archive,
            &container_url,
            EpubError::ContainerFile(ContainerFileErr),
        ) {
            Ok(c) => c,
            Err(e) => {
                return Err(e);
            },
        };
        let package_doc_url = match parse_container_file(base_url, container.as_slice()) {
            Ok(u) => u,
            Err(ContainerFailure::Container(e)) => {
                return Err(OpenError::Epub(EpubError::ContainerFile(e)));
            },
            Err(ContainerFailure::Io(kind)) => {
                return Err(OpenError::Io(kind));
            },
        };
        let document = match read_or(
            archive,
            &package_doc_url,
            EpubError::PackageDoc(Error::Generic),
        ) {
            Ok(d) => d,
            Err(e) => {
                return Err(e);
            },
        };
        let package = match Package::new(document.as_slice()) {
            Ok(p) => p,
            Err(Failure::Package(e)) => {
                return Err(OpenError::Epub(EpubError::PackageDoc(e)));
            },
            Err(Failure::Io(kind)) => {
                return Err(OpenError::Io(kind));
            },
        };
        match Epub::assemble(package, &package_doc_url) {
            Ok(epub) => Ok(epub),
            Err(e) => Err(OpenError::Epub(e)),
        }
    }

    /// Opens the publication that `bytes` hold.
    pub fn open(bytes: Vec<u8>) -> (r: Result<(Epub, EpubArchive), OpenError>)
        ensures
            open_outcome(r) == opened(bytes@),
    {
        let base_url = match url_parse("epub:/") {
            Some(u) => u,
            None => {
                return Err(OpenError::Epub(EpubError::Archive(ArchiveErr)));
            },
        };
        let mut archive = match EpubArchive::new(bytes, &base_url) {
            Ok(a) => a,
            Err(ArchiveFailure::Archive(e)) => {
                return Err(OpenError::Epub(EpubError::Archive(e)));
            },
            Err(ArchiveFailure::Io(kind)) => {
                return Err(OpenError::Io(kind));
            },
        };
        match Epub::from_archive(&mut archive, &base_url) {
            Ok(epub) => Ok((epub, archive)),
            Err(e) => Err(e),
        }
    }
}

} // verus!
