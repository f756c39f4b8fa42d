//! Reading a document into its events.
//!
//! The events come from `quick_xml`. What its readers and events hand
//! out is taken as it comes and named; the library's own part is to put
//! the pieces together into the plain events of [`crate::xml`], and to
//! stop at the end of the input or at the first fault.

use vstd::prelude::*;

use crate::text::{bytes_opt, chars_opt, copy_bytes};
use crate::xml::{
    AttributeModel,
    DocumentModel,
    EventModel,
    XmlAttribute,
    XmlDocument,
    XmlEvent,
    XmlFault,
    XmlKind,
};

verus! {

/// `std::io::Cursor`, the byte source of the readers: bytes in memory.
#[verifier::external_type_specification]
#[verifier::external_body]
#[verifier::reject_recursive_types(T)]
pub struct ExCursor<T>(std::io::Cursor<T>);

/// `quick_xml::NsReader`, the reader that resolves namespaces.
#[verifier::external_type_specification]
#[verifier::external_body]
#[verifier::reject_recursive_types(R)]
pub struct ExNsReader<R>(quick_xml::NsReader<R>);

/// `quick_xml::Reader`, the reader that knows no namespaces.
#[verifier::external_type_specification]
#[verifier::external_body]
#[verifier::reject_recursive_types(R)]
pub struct ExReader<R>(quick_xml::Reader<R>);

/// `quick_xml::events::Event`, what a read of either reader hands out.
#[verifier::external_type_specification]
#[verifier::external_body]
pub struct ExEvent<'a>(quick_xml::events::Event<'a>);

/// Where a reader stands: the document it reads, how it is set, and
/// how many reads it has answered.
pub struct ReaderState {
    pub input: Seq<u8>,
    /// Whether white space at both ends of a text is dropped, and with it
    /// a text of nothing else.
    pub trim_text: bool,
    /// Whether an end tag must bear the name of its start tag.
    pub check_end_names: bool,
    pub reads: nat,
}

impl ReaderState {
    /// A reader of `input` that has answered nothing yet.
    pub open spec fn start(input: Seq<u8>, trim_text: bool, check_end_names: bool) -> ReaderState {
        ReaderState { input, trim_text, check_end_names, reads: 0 }
    }

    /// The reader after one more read.
    pub open spec fn next(self) -> ReaderState {
        ReaderState { reads: self.reads + 1, ..self }
    }
}

/// An attribute as the attribute reader of a tag hands it out.
#[derive(Debug)]
pub struct RawAttribute {
    pub name: Vec<u8>,
    pub local_name: Vec<u8>,
    pub value: Vec<u8>,
}

/// What a [`RawAttribute`] is.
pub struct RawAttributeModel {
    pub name: Seq<u8>,
    pub local_name: Seq<u8>,
    pub value: Seq<u8>,
}

impl View for RawAttribute {
    type V = RawAttributeModel;

    open spec fn view(&self) -> RawAttributeModel {
        RawAttributeModel { name: self.name@, local_name: self.local_name@, value: self.value@ }
    }
}

impl DeepView for RawAttribute {
    type V = RawAttributeModel;

    open spec fn deep_view(&self) -> RawAttributeModel {
        self@
    }
}

/// Where a namespace-aware reader stands.
pub uninterp spec fn ns_state(reader: quick_xml::NsReader<std::io::Cursor<Vec<u8>>>) -> ReaderState;

/// Where a plain reader stands.
pub uninterp spec fn plain_state(reader: quick_xml::Reader<std::io::Cursor<Vec<u8>>>) -> ReaderState;

/// What a namespace-aware reader that stands at `at` answers to its
/// next read: an event with the namespace of its element, or a fault.
pub uninterp spec fn ns_event(at: ReaderState) -> Result<
    (Option<Seq<u8>>, quick_xml::events::Event<'static>),
    XmlFault,
>;

/// What a plain reader that stands at `at` answers to its next read.
pub uninterp spec fn plain_event(at: ReaderState) -> Result<
    quick_xml::events::Event<'static>,
    XmlFault,
>;

/// The kind of an event, or `None` for the end of the input.
pub uninterp spec fn event_kind_of(event: quick_xml::events::Event<'static>) -> Option<XmlKind>;

/// The element name of a tag without its prefix.
pub uninterp spec fn event_name_of(event: quick_xml::events::Event<'static>) -> Seq<u8>;

/// The attributes of a tag as its attribute reader hands them out, with
/// or without the check for repeated names.
pub uninterp spec fn event_attributes_of(
    event: quick_xml::events::Event<'static>,
    checks: bool,
) -> Seq<Option<RawAttributeModel>>;

/// The unescaped content of a text event.
pub uninterp spec fn event_text_of(event: quick_xml::events::Event<'static>) -> Option<Seq<char>>;

/// The namespace that the attribute name `name` is bound to for a
/// namespace-aware reader that stands at `at`.
pub uninterp spec fn namespace_at(at: ReaderState, name: Seq<u8>) -> Option<Seq<u8>>;

/// The text of an attribute value: decoded, and with its entities
/// resolved.
pub uninterp spec fn unescaped(raw: Seq<u8>) -> Option<Seq<char>>;

/// Makes a namespace-aware reader over a copy of `document` with
/// `NsReader::from_reader`, and sets it through `config_mut`.
#[verifier::external_body]
fn ns_open(document: &[u8], trim_text: bool, check_end_names: bool) -> (r: quick_xml::NsReader<
    std::io::Cursor<Vec<u8>>,
>)
    ensures
        ns_state(r) == ReaderState::start(document@, trim_text, check_end_names),
{
    let mut reader = quick_xml::NsReader::from_reader(std::io::Cursor::new(document.to_vec()));
    let config = reader.config_mut();
    config.trim_text(trim_text);
    config.check_end_names = check_end_names;
    reader
}

/// Makes a plain reader over a copy of `document` with
/// `Reader::from_reader`, and sets it through `config_mut`.
#[verifier::external_body]
fn plain_open(document: &[u8], trim_text: bool, check_end_names: bool) -> (r: quick_xml::Reader<
    std::io::Cursor<Vec<u8>>,
>)
    ensures
        plain_state(r) == ReaderState::start(document@, trim_text, check_end_names),
{
    let mut reader = quick_xml::Reader::from_reader(std::io::Cursor::new(document.to_vec()));
    let config = reader.config_mut();
    config.trim_text(trim_text);
    config.check_end_names = check_end_names;
    reader
}

/// Calls `NsReader::read_resolved_event_into`. The contract counts the
/// read and names the answer by where the reader stood; of an error it
/// keeps only whether the byte source failed, and how.
#[verifier::external_body]
fn ns_next(reader: &mut quick_xml::NsReader<std::io::Cursor<Vec<u8>>>) -> (r: Result<
    (Option<Vec<u8>>, quick_xml::events::Event<'static>),
    XmlFault,
>)
    ensures
        ns_state(*final(reader)) == ns_state(*old(reader)).next(),
        match r {
            Ok((namespace, event)) => ns_event(ns_state(*old(reader))) == Ok::<
                (Option<Seq<u8>>, quick_xml::events::Event<'static>),
                XmlFault,
            >((bytes_opt(namespace), event)),
            Err(fault) => ns_event(ns_state(*old(reader))) == Err::<
                (Option<Seq<u8>>, quick_xml::events::Event<'static>),
                XmlFault,
            >(fault),
        },
{
    let mut buffer = Vec::new();
    match reader.read_resolved_event_into(&mut buffer) {
        Ok((quick_xml::name::ResolveResult::Bound(n), e)) => Ok((Some(n.0.to_vec()), e.into_owned())),
        Ok((_, e)) => Ok((None, e.into_owned())),
        Err(quick_xml::Error::Io(e)) => Err(XmlFault::Io(e.kind())),
        Err(_) => Err(XmlFault::Malformed),
    }
}

/// Calls `Reader::read_event_into`, with the contract of `ns_next`.
#[verifier::external_body]
fn plain_next(reader: &mut quick_xml::Reader<std::io::Cursor<Vec<u8>>>) -> (r: Result<
    quick_xml::events::Event<'static>,
    XmlFault,
>)
    ensures
        plain_state(*final(reader)) == plain_state(*old(reader)).next(),
        r == plain_event(plain_state(*old(reader))),
{
    let mut buffer = Vec::new();
    match reader.read_event_into(&mut buffer) {
        Ok(e) => Ok(e.into_owned()),
        Err(quick_xml::Error::Io(e)) => Err(XmlFault::Io(e.kind())),
        Err(_) => Err(XmlFault::Malformed),
    }
}

/// Tells the variants of `Event` apart.
#[verifier::external_body]
fn event_kind(event: &quick_xml::events::Event<'static>) -> (r: Option<XmlKind>)
    ensures
        r == event_kind_of(*event),
{
    match event {
        quick_xml::events::Event::Start(_) => Some(XmlKind::Start),
        quick_xml::events::Event::End(_) => Some(XmlKind::End),
        quick_xml::events::Event::Empty(_) => Some(XmlKind::Empty),
        quick_xml::events::Event::Text(_) => Some(XmlKind::Text),
        quick_xml::events::Event::CData(_) => Some(XmlKind::Other),
        quick_xml::events::Event::Comment(_) => Some(XmlKind::Other),
        quick_xml::events::Event::Decl(_) => Some(XmlKind::Other),
        quick_xml::events::Event::PI(_) => Some(XmlKind::Other),
        quick_xml::events::Event::DocType(_) => Some(XmlKind::Other),
        quick_xml::events::Event::Eof => None,
    }
}

/// Calls `local_name` on the tag of a start, empty or end event; other
/// events have no name, and give none.
#[verifier::external_body]
fn event_local_name(event: &quick_xml::events::Event<'static>) -> (r: Vec<u8>)
    ensures
        r@ == event_name_of(*event),
{
    match event {
        quick_xml::events::Event::Start(e) => e.local_name().as_ref().to_vec(),
        quick_xml::events::Event::Empty(e) => e.local_name().as_ref().to_vec(),
        quick_xml::events::Event::End(e) => e.local_name().as_ref().to_vec(),
        _ => Vec::new(),
    }
}

/// Runs the attribute reader of a start or empty tag, `attributes` with
/// `with_checks(checks)`, to its end; an item that is an error comes
/// out as `None`. Other events have no attributes.
#[verifier::external_body]
fn event_attributes(event: &quick_xml::events::Event<'static>, checks: bool) -> (r: Vec<
    Option<RawAttribute>,
>)
    ensures
        r.deep_view() == event_attributes_of(*event, checks),
{
    match event {
        quick_xml::events::Event::Start(e) | quick_xml::events::Event::Empty(e) => e.attributes()
            .with_checks(checks)
            .map(|a| a.ok().map(|a| RawAttribute {
                name: a.key.as_ref().to_vec(),
                local_name: a.key.local_name().as_ref().to_vec(),
                value: a.value.to_vec(),
            }))
            .collect(),
        _ => Vec::new(),
    }
}

/// Calls `BytesText::unescape` on the content of a text event; `None`
/// where it fails, and for other events.
#[verifier::external_body]
fn event_text(event: &quick_xml::events::Event<'static>) -> (r: Option<String>)
    ensures
        chars_opt(r) == event_text_of(*event),
{
    match event {
        quick_xml::events::Event::Text(e) => e.unescape().ok().map(|text| text.into_owned()),
        _ => None,
    }
}

/// Calls `NsReader::resolve_attribute`, and keeps the namespace where
/// the name is bound to one.
#[verifier::external_body]
fn attribute_namespace(reader: &quick_xml::NsReader<std::io::Cursor<Vec<u8>>>, name: &[u8]) -> (r:
    Option<Vec<u8>>)
    ensures
        bytes_opt(r) == namespace_at(ns_state(*reader), name@),
{
    match reader.resolve_attribute(quick_xml::name::QName(name)).0 {
        quick_xml::name::ResolveResult::Bound(n) => Some(n.0.to_vec()),
        _ => None,
    }
}

/// Calls `Attribute::unescape_value` on an attribute with the value
/// `raw`; `None` where it fails.
#[verifier::external_body]
fn unescape_value(raw: &[u8]) -> (r: Option<String>)
    ensures
        chars_opt(r) == unescaped(raw@),
{
    quick_xml::events::attributes::Attribute { key: quick_xml::name::QName(&[]), value: raw.into() }
        .unescape_value()
        .ok()
        .map(|text| text.into_owned())
}

/// The attribute that `raw` is for a reader that stands at `at`, or for
/// a plain reader, which binds no name to a namespace.
pub open spec fn attribute_of(raw: RawAttributeModel, at: Option<ReaderState>) -> AttributeModel {
    AttributeModel {
        name: raw.name,
        local_name: raw.local_name,
        namespace: match at {
            Some(state) => namespace_at(state, raw.name),
            None => None,
        },
        raw: raw.value,
        value: unescaped(raw.value),
    }
}

/// The attributes that `raws` are for a reader that stands at `at`; a
/// place that is no attribute stays none.
pub open spec fn attributes_of(raws: Seq<Option<RawAttributeModel>>, at: Option<ReaderState>) -> Seq<
    Option<AttributeModel>,
> {
    Seq::new(
        raws.len(),
        |i: int|
            match raws[i] {
                Some(raw) => Some(attribute_of(raw, at)),
                None => None,
            },
    )
}

/// The plain event that an event of the reader is, given its kind, the
/// namespace of its element and where the reader stands after it.
pub open spec fn event_of(
    event: quick_xml::events::Event<'static>,
    kind: XmlKind,
    namespace: Option<Seq<u8>>,
    at: Option<ReaderState>,
) -> EventModel {
    EventModel {
        kind,
        namespace,
        local_name: event_name_of(event),
        attributes: attributes_of(event_attributes_of(event, false), at),
        unique: attributes_of(event_attributes_of(event, true), at),
        text: event_text_of(event),
    }
}

/// The next read of a namespace-aware reader that stands at `at`: an
/// event, a fault, or `None` at the end of the input.
pub open spec fn ns_read(at: ReaderState) -> Option<Result<EventModel, XmlFault>> {
    match ns_event(at) {
        Err(fault) => Some(Err(fault)),
        Ok((namespace, event)) => match event_kind_of(event) {
            None => None,
            Some(kind) => Some(Ok(event_of(event, kind, namespace, Some(at.next())))),
        },
    }
}

/// The next read of a plain reader that stands at `at`.
pub open spec fn plain_read(at: ReaderState) -> Option<Result<EventModel, XmlFault>> {
    match plain_event(at) {
        Err(fault) => Some(Err(fault)),
        Ok(event) => match event_kind_of(event) {
            None => None,
            Some(kind) => Some(Ok(event_of(event, kind, None, None))),
        },
    }
}

/// `events` followed by the document `rest`.
pub open spec fn followed(events: Seq<EventModel>, rest: DocumentModel) -> DocumentModel {
    DocumentModel { events: events + rest.events, fault: rest.fault }
}

/// The document that a reader at `at` still has to give, of at most
/// `budget` events: it ends at the end of the input or at the first
/// fault, and an event beyond the budget counts as a fault.
pub open spec fn ns_document_from(at: ReaderState, budget: nat) -> DocumentModel
    decreases budget,
{
    match ns_read(at) {
        None => DocumentModel { events: Seq::empty(), fault: None },
        Some(Err(fault)) => DocumentModel { events: Seq::empty(), fault: Some(fault) },
        Some(Ok(event)) => if budget == 0 {
            DocumentModel { events: Seq::empty(), fault: Some(XmlFault::Malformed) }
        } else {
            followed(seq![event], ns_document_from(at.next(), (budget - 1) as nat))
        },
    }
}

/// The same for a plain reader.
pub open spec fn plain_document_from(at: ReaderState, budget: nat) -> DocumentModel
    decreases budget,
{
    match plain_read(at) {
        None => DocumentModel { events: Seq::empty(), fault: None },
        Some(Err(fault)) => DocumentModel { events: Seq::empty(), fault: Some(fault) },
        Some(Ok(event)) => if budget == 0 {
            DocumentModel { events: Seq::empty(), fault: Some(XmlFault::Malformed) }
        } else {
            followed(seq![event], plain_document_from(at.next(), (budget - 1) as nat))
        },
    }
}

/// The document that a namespace-aware reader makes of `input` when it
/// trims text and checks end names. No document has more events than
/// bytes, so the budget is the length.
pub open spec fn ns_document(input: Seq<u8>) -> DocumentModel {
    ns_document_from(ReaderState::start(input, true, true), input.len())
}

/// The document that a plain reader makes of `input` when it keeps text
/// as it stands and checks end names.
pub open spec fn plain_document(input: Seq<u8>) -> DocumentModel {
    plain_document_from(ReaderState::start(input, false, true), input.len())
}

fn cook_attributes(
    raws: &Vec<Option<RawAttribute>>,
    reader: Option<&quick_xml::NsReader<std::io::Cursor<Vec<u8>>>>,
) -> (r: Vec<Option<XmlAttribute>>)
    ensures
        r.deep_view() == attributes_of(
            raws.deep_view(),
            match reader {
                Some(rd) => Some(ns_state(*rd)),
                None => None,
            },
        ),
{
    let ghost at = match reader {
        Some(rd) => Some(ns_state(*rd)),
        None => None,
    };
    let mut out: Vec<Option<XmlAttribute>> = Vec::new();
    let mut i: usize = 0;
    while i < raws.len()
        invariant
            i <= raws.len(),
            out.len() == i,
            at == match reader {
                Some(rd) => Some(ns_state(*rd)),
                None => None,
            },
            forall|j: int|
                0 <= j < i ==> (#[trigger] out[j]).deep_view() == attributes_of(
                    raws.deep_view(),
                    at,
                )[j],
        decreases raws.len() - i,
    {
        let cooked = match &raws[i] {
            Some(raw) => {
                assert(raws.deep_view()[i as int] == Some(raw@));
                Some(
                    XmlAttribute {
                        name: copy_bytes(raw.name.as_slice()),
                        local_name: copy_bytes(raw.local_name.as_slice()),
                        namespace: match reader {
                            Some(rd) => attribute_namespace(rd, raw.name.as_slice()),
                            None => None,
                        },
                        raw: copy_bytes(raw.value.as_slice()),
                        value: unescape_value(raw.value.as_slice()),
                    },
                )
            },
            None => {
                assert(raws.deep_view()[i as int] is None);
                None
            },
        };
        out.push(cooked);
        i += 1;
    }
    assert(out.deep_view() =~= attributes_of(raws.deep_view(), at));
    out
}

fn cook(
    event: &quick_xml::events::Event<'static>,
    kind: XmlKind,
    namespace: Option<Vec<u8>>,
    reader: Option<&quick_xml::NsReader<std::io::Cursor<Vec<u8>>>>,
) -> (r: XmlEvent)
    ensures
        r@ == event_of(
            *event,
            kind,
            bytes_opt(namespace),
            match reader {
                Some(rd) => Some(ns_state(*rd)),
                None => None,
            },
        ),
{
    let plain = event_attributes(event, false);
    let checked = event_attributes(event, true);
    XmlEvent {
        kind,
        namespace,
        local_name: event_local_name(event),
        attributes: cook_attributes(&plain, reader),
        unique: cook_attributes(&checked, reader),
        text: event_text(event),
    }
}

impl XmlDocument {
    /// Reads `document` with a reader that resolves namespaces, trims
    /// text and checks that end tags match.
    pub fn read(document: &[u8]) -> (r: XmlDocument)
        ensures
            r@ == ns_document(document@),
    {
        let mut reader = ns_open(document, true, true);
        let mut events: Vec<XmlEvent> = Vec::new();
        let mut fault: Option<XmlFault> = None;
        let mut budget: usize = document.len();
        let mut done = false;
        assert(events.deep_view() =~= Seq::empty());
        assert(followed(Seq::empty(), ns_document(document@)) == ns_document(document@));
        while !done
            invariant
                !done ==> fault is None,
                ns_document(document@) == followed(
                    events.deep_view(),
                    if done {
                        DocumentModel { events: Seq::empty(), fault }
                    } else {
                        ns_document_from(ns_state(reader), budget as nat)
                    },
                ),
            decreases budget + if done { 0int } else { 1int },
        {
            let ghost at = ns_state(reader);
            let ghost whole = ns_document_from(at, budget as nat);
            let ghost so_far = events.deep_view();
            assert(ns_document(document@) == followed(so_far, whole));
            match ns_next(&mut reader) {
                Err(f) => {
                    assert(ns_read(at) == Some(Err::<EventModel, XmlFault>(f)));
                    assert(whole == DocumentModel { events: Seq::empty(), fault: Some(f) });
                    fault = Some(f);
                    done = true;
                },
                Ok((namespace, event)) => {
                    match event_kind(&event) {
                        None => {
                            assert(ns_read(at) is None);
                            assert(whole == DocumentModel { events: Seq::empty(), fault: None });
                            done = true;
                        },
                        Some(kind) => {
                            let cooked = cook(&event, kind, namespace, Some(&reader));
                            assert(ns_read(at) == Some(Ok::<EventModel, XmlFault>(cooked@)));
                            if budget == 0 {
                                assert(whole == DocumentModel {
                                    events: Seq::empty(),
                                    fault: Some(XmlFault::Malformed),
                                });
                                fault = Some(XmlFault::Malformed);
                                done = true;
                            } else {
                                let ghost before = events.deep_view();
                                events.push(cooked);
                                budget = budget - 1;
                                proof {
                                    let rest = ns_document_from(at.next(), budget as nat);
                                    assert(whole == followed(seq![cooked@], rest));
                                    assert(events.deep_view() =~= before.push(cooked@));
                                    assert(before + (seq![cooked@] + rest.events) =~= before.push(
                                        cooked@,
                                    ) + rest.events);
                                }
                            }
                        },
                    }
                },
            }
        }
        let r = XmlDocument { events, fault };
        assert(r@.events =~= events.deep_view() + Seq::<EventModel>::empty());
        r
    }

    /// Reads `document` with a reader that knows no namespaces, keeps
    /// text as it stands and checks that end tags match.
    pub fn read_plain(document: &[u8]) -> (r: XmlDocument)
        ensures
            r@ == plain_document(document@),
    {
        let mut reader = plain_open(document, false, true);
        let mut events: Vec<XmlEvent> = Vec::new();
        let mut fault: Option<XmlFault> = None;
        let mut budget: usize = document.len();
        let mut done = false;
        assert(events.deep_view() =~= Seq::empty());
        assert(followed(Seq::empty(), plain_document(document@)) == plain_document(document@));
        while !done
            invariant
                !done ==> fault is None,
                plain_document(document@) == followed(
                    events.deep_view(),
                    if done {
                        DocumentModel { events: Seq::empty(), fault }
                    } else {
                        plain_document_from(plain_state(reader), budget as nat)
                    },
                ),
            decreases budget + if done { 0int } else { 1int },
        {
            let ghost at = plain_state(reader);
            let ghost whole = plain_document_from(at, budget as nat);
            let ghost so_far = events.deep_view();
            assert(plain_document(document@) == followed(so_far, whole));
            match plain_next(&mut reader) {
                Err(f) => {
                    assert(plain_read(at) == Some(Err::<EventModel, XmlFault>(f)));
                    assert(whole == DocumentModel { events: Seq::empty(), fault: Some(f) });
                    fault = Some(f);
                    done = true;
                },
                Ok(event) => {
                    match event_kind(&event) {
                        None => {
                            assert(plain_read(at) is None);
                            assert(whole == DocumentModel { events: Seq::empty(), fault: None });
                            done = true;
                        },
                        Some(kind) => {
                            let cooked = cook(&event, kind, None, None);
                            assert(plain_read(at) == Some(Ok::<EventModel, XmlFault>(cooked@)));
                            if budget == 0 {
                                assert(whole == DocumentModel {
                                    events: Seq::empty(),
                                    fault: Some(XmlFault::Malformed),
                                });
                                fault = Some(XmlFault::Malformed);
                                done = true;
                            } else {
                                let ghost before = events.deep_view();
                                events.push(cooked);
                                budget = budget - 1;
                                proof {
                                    let rest = plain_document_from(at.next(), budget as nat);
                                    assert(whole == followed(seq![cooked@], rest));
                                    assert(events.deep_view() =~= before.push(cooked@));
                                    assert(before + (seq![cooked@] + rest.events) =~= before.push(
                                        cooked@,
                                    ) + rest.events);
                                }
                            }
                        },
                    }
                },
            }
        }
        let r = XmlDocument { events, fault };
        assert(r@.events =~= events.deep_view() + Seq::<EventModel>::empty());
        r
    }
}

} // verus!
