//! The container file, which says where the package document is.

use vstd::prelude::*;

use crate::address::{url_join, url_joined, url_text};
use crate::error::ContainerFileErr;
use crate::text::{bytes_are, utf8};
use crate::xml::{DocumentModel, EventModel, XmlDocument, XmlFault, XmlKind};
use crate::xml_reader::plain_document;

verus! {

/// Why a container file names no package document: it is rejected, or
/// its bytes could not be had.
#[derive(Clone, Copy, Debug)]
pub enum ContainerFailure {
    Container(ContainerFileErr),
    Io(std::io::ErrorKind),
}

/// Whether an event is the tag of a `rootfile` element.
pub open spec fn is_rootfile(ev: EventModel) -> bool {
    (ev.kind == XmlKind::Start || ev.kind == XmlKind::Empty) && ev.local_name == utf8("rootfile")
}

/// The URL of the package document as the events from `from` on give
/// it: the `full-path` of the first `rootfile` element, resolved against
/// `base`. The first `rootfile` decides, so one without a readable
/// `full-path`, or with one that does not resolve, is an error, as is a
/// document that ends without any; a failure of the byte source is
/// reported as such.
pub open spec fn rootfile_from(
    events: Seq<EventModel>,
    fault: Option<XmlFault>,
    from: int,
    base: Seq<char>,
) -> Result<Seq<char>, ContainerFailure>
    decreases events.len() - from,
{
    if from < 0 || from >= events.len() {
        match fault {
            Some(XmlFault::Io(kind)) => Err(ContainerFailure::Io(kind)),
            _ => Err(ContainerFailure::Container(ContainerFileErr)),
        }
    } else if is_rootfile(events[from]) {
        match events[from].attribute_text(utf8("full-path")) {
            Ok(Some(path)) => match url_joined(base, path) {
                Some(url) => Ok(url),
                None => Err(ContainerFailure::Container(ContainerFileErr)),
            },
            _ => Err(ContainerFailure::Container(ContainerFileErr)),
        }
    } else {
        rootfile_from(events, fault, from + 1, base)
    }
}

/// The URL of the package document that a container names.
pub open spec fn rootfile_of(document: DocumentModel, base: Seq<char>) -> Result<
    Seq<char>,
    ContainerFailure,
> {
    rootfile_from(document.events, document.fault, 0, base)
}

/// The outcome of locating, the URL taken by its serialization.
pub open spec fn rootfile_outcome(r: Result<url::Url, ContainerFailure>) -> Result<
    Seq<char>,
    ContainerFailure,
> {
    match r {
        Ok(u) => Ok(url_text(u)),
        Err(e) => Err(e),
    }
}

/// Finds the package document in the events of a container file.
pub fn find_rootfile(base_url: &url::Url, document: &XmlDocument) -> (r: Result<
    url::Url,
    ContainerFailure,
>)
    ensures
        rootfile_outcome(r) == rootfile_of(document@, url_text(*base_url)),
{
    let mut i: usize = 0;
    while i < document.events.len()
        invariant
            i <= document.events.len(),
            rootfile_of(document@, url_text(*base_url)) == rootfile_from(
                document@.events,
                document@.fault,
                i as int,
                url_text(*base_url),
            ),
        decreases document.events.len() - i,
    {
        let ev = &document.events[i];
        assert(document@.events[i as int] == ev@);
        if (ev.kind == XmlKind::Start || ev.kind == XmlKind::Empty) && bytes_are(
            ev.local_name.as_slice(),
            "rootfile",
        ) {
            return match ev.attribute_text("full-path") {
                Ok(Some(path)) => match url_join(base_url, path.as_str()) {
                    Some(url) => Ok(url),
                    None => Err(ContainerFailure::Container(ContainerFileErr)),
                },
                _ => Err(ContainerFailure::Container(ContainerFileErr)),
            };
        }
        i += 1;
    }
    match document.fault {
        Some(XmlFault::Io(kind)) => Err(ContainerFailure::Io(kind)),
        _ => Err(ContainerFailure::Container(ContainerFileErr)),
    }
}

/// Reads the container file `container` and gives the URL of the package
/// document it names, resolved against `base_url`.
pub fn parse_container_file(base_url: &url::Url, container: &[u8]) -> (r: Result<
    url::Url,
    ContainerFailure,
>)
    ensures
        rootfile_outcome(r) == rootfile_of(plain_document(container@), url_text(*base_url)),
{
    let document = XmlDocument::read_plain(container);
    find_rootfile(base_url, &document)
}

} // verus!
