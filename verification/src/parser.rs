//! The reader of the package document.
//!
//! The document is taken event by event. Outside its three sections the
//! reader looks for the `package` element and for the start of a
//! section; inside one it hands the events to that section's rules until
//! the section's end tag.

use vstd::prelude::*;

use crate::manifest::{inserted, EntryModel, Manifest};
use crate::metadata::{MetadataModel, MetadataReader};
use crate::package::{
    properties_opt,
    Error,
    Failure,
    failure_of,
    Itemref,
    ItemrefModel,
    Package,
    PackageModel,
    PropertiesValue,
    ResourceItem,
    ResourceModel,
    Spine,
    SpineModel,
    Version,
};
use crate::text::{chars_opt, eq_ignore_ascii_case, same_ignoring_ascii_case, utf8};
use crate::xml::{DocumentModel, EventModel, XmlDocument, XmlEvent, XmlFault, XmlKind};
use crate::xml_reader::ns_document;

verus! {

/// Where in the document the reader is, with what it has gathered of a
/// section that is still open.
#[derive(Debug)]
pub enum Section {
    Top,
    Metadata(MetadataReader),
    Manifest(Manifest),
    Spine(Vec<Itemref>),
}

/// What a [`Section`] is.
pub enum SectionModel {
    Top,
    Metadata(MetadataModel),
    Manifest(Seq<EntryModel>),
    Spine(Seq<ItemrefModel>),
}

impl View for Section {
    type V = SectionModel;

    open spec fn view(&self) -> SectionModel {
        match *self {
            Section::Top => SectionModel::Top,
            Section::Metadata(m) => SectionModel::Metadata(m@),
            Section::Manifest(m) => SectionModel::Manifest(m@),
            Section::Spine(s) => SectionModel::Spine(s.deep_view()),
        }
    }
}

/// The reader's state between two events.
#[derive(Debug)]
pub struct PackageParser {
    pub section: Section,
    pub out: Package,
}

/// What a [`PackageParser`] is.
pub struct ParserModel {
    pub section: SectionModel,
    pub out: PackageModel,
}

impl View for PackageParser {
    type V = ParserModel;

    open spec fn view(&self) -> ParserModel {
        ParserModel { section: self.section@, out: self.out@ }
    }
}

/// What an event leaves behind: a reader that goes on, or the package.
pub enum Step {
    More(PackageParser),
    Done(Package),
}

/// What a [`Step`] is.
pub enum StepModel {
    More(ParserModel),
    Done(PackageModel),
}

impl View for Step {
    type V = StepModel;

    open spec fn view(&self) -> StepModel {
        match *self {
            Step::More(p) => StepModel::More(p@),
            Step::Done(p) => StepModel::Done(p@),
        }
    }
}

/// The outcome of one event, the step taken by its view.
pub open spec fn step_outcome(r: Result<Step, Error>) -> Result<StepModel, Error> {
    match r {
        Ok(s) => Ok(s@),
        Err(e) => Err(e),
    }
}

/// The version that the attribute value `text` selects.
pub open spec fn version_of(text: Seq<u8>) -> Version {
    if same_ignoring_ascii_case(text, utf8("3.0")) {
        Version::Epub3_0
    } else {
        Version::Epub2_0
    }
}

/// The manifest after an `item` element: the element must carry `id`,
/// `href` and `media-type`, and may carry `properties`.
pub open spec fn manifest_item(manifest: Seq<EntryModel>, ev: EventModel) -> Result<
    Seq<EntryModel>,
    Error,
> {
    match ev.attribute_raw(utf8("id")) {
        Err(_) => Err(Error::Generic),
        Ok(None) => Err(Error::Manifest),
        Ok(Some(id)) => match ev.attribute_text(utf8("href")) {
            Err(_) => Err(Error::Generic),
            Ok(None) => Err(Error::Manifest),
            Ok(Some(href)) => match ev.attribute_text(utf8("media-type")) {
                Err(_) => Err(Error::Generic),
                Ok(None) => Err(Error::Manifest),
                Ok(Some(media_type)) => match ev.attribute_text(utf8("properties")) {
                    Err(_) => Err(Error::Generic),
                    Ok(properties) => Ok(
                        inserted(manifest, id, ResourceModel { href, media_type, properties }),
                    ),
                },
            },
        },
    }
}

/// The reading order after an `itemref` element: the element must carry
/// `idref`, and may carry `properties`.
pub open spec fn spine_itemref(itemrefs: Seq<ItemrefModel>, ev: EventModel) -> Result<
    Seq<ItemrefModel>,
    Error,
> {
    match ev.attribute_raw(utf8("idref")) {
        Err(_) => Err(Error::Generic),
        Ok(None) => Err(Error::Spine),
        Ok(Some(idref)) => match ev.attribute_text(utf8("properties")) {
            Err(_) => Err(Error::Generic),
            Ok(properties) => Ok(itemrefs.push(ItemrefModel { idref, properties })),
        },
    }
}

impl ParserModel {
    /// The reader before the first event.
    pub open spec fn start() -> ParserModel {
        ParserModel { section: SectionModel::Top, out: PackageModel::empty() }
    }

    /// An event outside the sections.
    pub open spec fn top(self, ev: EventModel) -> Result<StepModel, Error> {
        if ev.is_tag(XmlKind::Start, "package") {
            match ev.attribute_raw(utf8("version")) {
                Ok(Some(text)) => Ok(
                    StepModel::More(
                        ParserModel {
                            out: PackageModel { version: version_of(text), ..self.out },
                            ..self
                        },
                    ),
                ),
                _ => Err(Error::Generic),
            }
        } else if ev.is_tag(XmlKind::End, "package") {
            Ok(StepModel::Done(self.out))
        } else if ev.is_tag(XmlKind::Start, "metadata") {
            Ok(
                StepModel::More(
                    ParserModel {
                        section: SectionModel::Metadata(
                            MetadataModel::start(self.out.version == Version::Epub2_0),
                        ),
                        ..self
                    },
                ),
            )
        } else if ev.is_tag(XmlKind::Start, "manifest") {
            Ok(
                StepModel::More(
                    ParserModel { section: SectionModel::Manifest(Seq::empty()), ..self },
                ),
            )
        } else if ev.is_tag(XmlKind::Start, "spine") {
            match ev.attribute_raw(utf8("toc")) {
                Err(_) => Err(Error::Generic),
                Ok(toc) => Ok(
                    StepModel::More(
                        ParserModel {
                            section: SectionModel::Spine(Seq::empty()),
                            out: PackageModel {
                                spine: SpineModel { toc, ..self.out.spine },
                                ..self.out
                            },
                        },
                    ),
                ),
            }
        } else {
            Ok(StepModel::More(self))
        }
    }

    /// The package once the open section, if there is one, has ended.
    pub open spec fn closed(self) -> PackageModel {
        match self.section {
            SectionModel::Top => self.out,
            SectionModel::Metadata(m) => PackageModel { metadata: m.finished(), ..self.out },
            SectionModel::Manifest(m) => PackageModel { manifest: m, ..self.out },
            SectionModel::Spine(s) => PackageModel {
                spine: SpineModel { itemrefs: s, ..self.out.spine },
                ..self.out
            },
        }
    }

    /// The reader outside the sections again, the open one having ended.
    pub open spec fn leave(self) -> ParserModel {
        ParserModel { section: SectionModel::Top, out: self.closed() }
    }

    /// What one event leaves behind, or the error it is rejected with.
    pub open spec fn step(self, ev: EventModel) -> Result<StepModel, Error> {
        match self.section {
            SectionModel::Top => self.top(ev),
            SectionModel::Metadata(m) => if ev.is_tag(XmlKind::End, "metadata") {
                Ok(StepModel::More(self.leave()))
            } else {
                match m.step(ev) {
                    Err(_) => Err(Error::Generic),
                    Ok(next) => Ok(
                        StepModel::More(
                            ParserModel { section: SectionModel::Metadata(next), ..self },
                        ),
                    ),
                }
            },
            SectionModel::Manifest(m) => if ev.is_tag(XmlKind::End, "manifest") {
                Ok(StepModel::More(self.leave()))
            } else if ev.is_tag(XmlKind::Empty, "item") {
                match manifest_item(m, ev) {
                    Err(e) => Err(e),
                    Ok(next) => Ok(
                        StepModel::More(
                            ParserModel { section: SectionModel::Manifest(next), ..self },
                        ),
                    ),
                }
            } else {
                Ok(StepModel::More(self))
            },
            SectionModel::Spine(s) => if ev.is_tag(XmlKind::End, "spine") {
                Ok(StepModel::More(self.leave()))
            } else if ev.is_tag(XmlKind::Empty, "itemref") {
                match spine_itemref(s, ev) {
                    Err(e) => Err(e),
                    Ok(next) => Ok(
                        StepModel::More(ParserModel { section: SectionModel::Spine(next), ..self }),
                    ),
                }
            } else {
                Ok(StepModel::More(self))
            },
        }
    }
}

/// What reading the events from `from` on gives a reader in the state
/// `state`: the package at the end tag of `package` or at the end of the
/// input, the error of the first event that is rejected, or the failure
/// that the reader's fault amounts to where the events run out first.
pub open spec fn run(
    events: Seq<EventModel>,
    fault: Option<XmlFault>,
    from: int,
    state: ParserModel,
) -> Result<PackageModel, Failure>
    decreases events.len() - from,
{
    if from < 0 || from >= events.len() {
        match fault {
            Some(f) => Err(failure_of(f)),
            None => Ok(state.closed()),
        }
    } else {
        match state.step(events[from]) {
            Err(e) => Err(Failure::Package(e)),
            Ok(StepModel::Done(package)) => Ok(package),
            Ok(StepModel::More(next)) => run(events, fault, from + 1, next),
        }
    }
}

/// The package that a document holds.
pub open spec fn package_of(document: DocumentModel) -> Result<PackageModel, Failure> {
    run(document.events, document.fault, 0, ParserModel::start())
}

/// The outcome of reading a package, taken by its view.
pub open spec fn package_outcome(r: Result<Package, Failure>) -> Result<PackageModel, Failure> {
    match r {
        Ok(p) => Ok(p@),
        Err(e) => Err(e),
    }
}

fn to_properties(text: Option<String>) -> (r: Option<PropertiesValue>)
    ensures
        properties_opt(r) == chars_opt(text),
{
    match text {
        Some(t) => Some(PropertiesValue(t)),
        None => None,
    }
}

fn read_item(manifest: Manifest, ev: &XmlEvent) -> (r: Result<Manifest, Error>)
    ensures
        match r {
            Ok(m) => manifest_item(manifest@, ev@) == Ok::<Seq<EntryModel>, Error>(m@),
            Err(e) => manifest_item(manifest@, ev@) == Err::<Seq<EntryModel>, Error>(e),
        },
{
    let id = match ev.attribute_raw("id") {
        Err(_) => {
            return Err(Error::Generic);
        },
        Ok(None) => {
            return Err(Error::Manifest);
        },
        Ok(Some(id)) => id,
    };
    let href = match ev.attribute_text("href") {
        Err(_) => {
            return Err(Error::Generic);
        },
        Ok(None) => {
            return Err(Error::Manifest);
        },
        Ok(Some(href)) => href,
    };
    let media_type = match ev.attribute_text("media-type") {
        Err(_) => {
            return Err(Error::Generic);
        },
        Ok(None) => {
            return Err(Error::Manifest);
        },
        Ok(Some(media_type)) => media_type,
    };
    let properties = match ev.attribute_text("properties") {
        Err(_) => {
            return Err(Error::Generic);
        },
        Ok(p) => p,
    };
    let mut manifest = manifest;
    manifest.insert(id, ResourceItem { href, media_type, properties: to_properties(properties) });
    Ok(manifest)
}

fn read_itemref(itemrefs: Vec<Itemref>, ev: &XmlEvent) -> (r: Result<Vec<Itemref>, Error>)
    ensures
        match r {
            Ok(s) => spine_itemref(itemrefs.deep_view(), ev@) == Ok::<Seq<ItemrefModel>, Error>(
                s.deep_view(),
            ),
            Err(e) => spine_itemref(itemrefs.deep_view(), ev@) == Err::<Seq<ItemrefModel>, Error>(
                e,
            ),
        },
{
    let idref = match ev.attribute_raw("idref") {
        Err(_) => {
            return Err(Error::Generic);
        },
        Ok(None) => {
            return Err(Error::Spine);
        },
        Ok(Some(idref)) => idref,
    };
    let properties = match ev.attribute_text("properties") {
        Err(_) => {
            return Err(Error::Generic);
        },
        Ok(p) => p,
    };
    let mut itemrefs = itemrefs;
    let itemref = Itemref { idref, properties: to_properties(properties) };
    let ghost before = itemrefs.deep_view();
    itemrefs.push(itemref);
    assert(itemrefs.deep_view() =~= before.push(itemref@));
    Ok(itemrefs)
}

impl PackageParser {
    /// The reader before the first event.
    pub fn new() -> (r: PackageParser)
        ensures
            r@ == ParserModel::start(),
    {
        let out = Package {
            version: Version::Epub2_0,
            metadata: Vec::new(),
            manifest: Manifest::new(),
            spine: Spine { toc: None, itemrefs: Vec::new() },
        };
        assert(out@.metadata =~= Seq::empty());
        assert(out@.spine.itemrefs =~= Seq::empty());
        PackageParser { section: Section::Top, out }
    }

    fn top(self, ev: &XmlEvent) -> (r: Result<Step, Error>)
        requires
            self.section is Top,
        ensures
            step_outcome(r) == self@.top(ev@),
    {
        let mut out = self.out;
        if ev.is_tag(XmlKind::Start, "package") {
            match ev.attribute_raw("version") {
                Ok(Some(text)) => {
                    out.version = if eq_ignore_ascii_case(text.as_slice(), "3.0".as_bytes()) {
                        Version::Epub3_0
                    } else {
                        Version::Epub2_0
                    };
                    Ok(Step::More(PackageParser { section: Section::Top, out }))
                },
                _ => Err(Error::Generic),
            }
        } else if ev.is_tag(XmlKind::End, "package") {
            Ok(Step::Done(out))
        } else if ev.is_tag(XmlKind::Start, "metadata") {
            let legacy = out.version == Version::Epub2_0;
            Ok(
                Step::More(
                    PackageParser { section: Section::Metadata(MetadataReader::new(legacy)), out },
                ),
            )
        } else if ev.is_tag(XmlKind::Start, "manifest") {
            Ok(Step::More(PackageParser { section: Section::Manifest(Manifest::new()), out }))
        } else if ev.is_tag(XmlKind::Start, "spine") {
            match ev.attribute_raw("toc") {
                Err(_) => Err(Error::Generic),
                Ok(toc) => {
                    out.spine.toc = toc;
                    let fresh: Vec<Itemref> = Vec::new();
                    assert(fresh.deep_view() =~= Seq::empty());
                    Ok(Step::More(PackageParser { section: Section::Spine(fresh), out }))
                },
            }
        } else {
            Ok(Step::More(PackageParser { section: Section::Top, out }))
        }
    }

    /// Ends the open section, if there is one, and gives the package.
    pub fn close(self) -> (r: Package)
        ensures
            r@ == self@.closed(),
    {
        let mut out = self.out;
        match self.section {
            Section::Top => {},
            Section::Metadata(m) => {
                out.metadata = m.finish();
            },
            Section::Manifest(m) => {
                out.manifest = m;
            },
            Section::Spine(s) => {
                out.spine.itemrefs = s;
            },
        }
        out
    }

    /// Takes one event.
    pub fn feed(self, ev: &XmlEvent) -> (r: Result<Step, Error>)
        ensures
            step_outcome(r) == self@.step(ev@),
    {
        match self.section {
            Section::Top => self.top(ev),
            Section::Metadata(mut m) => {
                if ev.is_tag(XmlKind::End, "metadata") {
                    let out = PackageParser { section: Section::Metadata(m), out: self.out }.close();
                    Ok(Step::More(PackageParser { section: Section::Top, out }))
                } else {
                    match m.feed(ev) {
                        Err(_) => Err(Error::Generic),
                        Ok(_) => Ok(
                            Step::More(PackageParser { section: Section::Metadata(m), out: self.out }),
                        ),
                    }
                }
            },
            Section::Manifest(m) => {
                if ev.is_tag(XmlKind::End, "manifest") {
                    let out = PackageParser { section: Section::Manifest(m), out: self.out }.close();
                    Ok(Step::More(PackageParser { section: Section::Top, out }))
                } else if ev.is_tag(XmlKind::Empty, "item") {
                    match read_item(m, ev) {
                        Err(e) => Err(e),
                        Ok(next) => Ok(
                            Step::More(
                                PackageParser { section: Section::Manifest(next), out: self.out },
                            ),
                        ),
                    }
                } else {
                    Ok(Step::More(PackageParser { section: Section::Manifest(m), out: self.out }))
                }
            },
            Section::Spine(s) => {
                if ev.is_tag(XmlKind::End, "spine") {
                    let out = PackageParser { section: Section::Spine(s), out: self.out }.close();
                    Ok(Step::More(PackageParser { section: Section::Top, out }))
                } else if ev.is_tag(XmlKind::Empty, "itemref") {
                    match read_itemref(s, ev) {
                        Err(e) => Err(e),
                        Ok(next) => Ok(
                            Step::More(PackageParser { section: Section::Spine(next), out: self.out }),
                        ),
                    }
                } else {
                    Ok(Step::More(PackageParser { section: Section::Spine(s), out: self.out }))
                }
            },
        }
    }
}

impl Package {
    /// Reads the package document `document`.
    pub fn new(document: &[u8]) -> (r: Result<Package, Failure>)
        ensures
            package_outcome(r) == package_of(ns_document(document@)),
    {
        let events = XmlDocument::read(document);
        Package::from_document(&events)
    }

    /// Reads the package that the events of `document` hold.
    pub fn from_document(document: &XmlDocument) -> (r: Result<Package, Failure>)
        ensures
            package_outcome(r) == package_of(document@),
    {
        let mut parser = PackageParser::new();
        let mut i: usize = 0;
        while i < document.events.len()
            invariant
                i <= document.events.len(),
                package_of(document@) == run(
                    document@.events,
                    document@.fault,
                    i as int,
                    parser@,
                ),
            decreases document.events.len() - i,
        {
            assert(document@.events[i as int] == document.events[i as int]@);
            match parser.feed(&document.events[i]) {
                Err(e) => {
                    return Err(Failure::Package(e));
                },
                Ok(Step::Done(package)) => {
                    return Ok(package);
                },
                Ok(Step::More(next)) => {
                    parser = next;
                },
            }
            i += 1;
        }
        match document.fault {
            Some(XmlFault::Io(kind)) => Err(Failure::Io(kind)),
            Some(XmlFault::Malformed) => Err(Failure::Package(Error::Generic)),
            None => Ok(parser.close()),
        }
    }
}

} // verus!
