//! The reader of the metadata section.
//!
//! The section is read event by event. A Dublin Core element and a `meta`
//! element with a `property` each open a statement whose value is the
//! text that follows, so the reader remembers between two events what the
//! next text belongs to. Refinements are kept aside under the id they
//! name and joined to their items when the section ends, so that one may
//! stand before or after the item it refines.

use vstd::prelude::*;

use crate::package::{
    Id,
    ItemModel,
    MetadataItem,
    MetadataRefinement,
    RefinementModel,
};
use crate::text::{
    bytes_are,
    bytes_eq,
    bytes_opt,
    chars_opt,
    copy_bytes,
    lossy_text,
    strip_hash,
    utf8,
    utf8_lossy,
    without_hash,
};
use crate::xml::{AttributeModel, EventModel, XmlAttribute, XmlEvent, XmlKind};

verus! {

/// The namespace of the Dublin Core elements.
pub open spec fn dublin_core() -> Seq<u8> {
    utf8("http://purl.org/dc/elements/1.1/")
}

/// The namespace of the package document's own elements.
pub open spec fn opf() -> Seq<u8> {
    utf8("http://www.idpf.org/2007/opf")
}

fn is_namespace(namespace: &Option<Vec<u8>>, name: &str) -> (r: bool)
    ensures
        r == (bytes_opt(*namespace) == Some(utf8(name))),
{
    match namespace {
        Some(n) => bytes_are(n.as_slice(), name),
        None => false,
    }
}

/// What the next text event belongs to.
#[derive(Debug)]
pub enum Pending {
    /// Nothing waits for a value.
    Nothing,
    /// The item at this place of the section waits for its value.
    Primary(usize),
    /// The latest refinement of the item with this id waits for its value.
    Refinement(Id),
}

/// What [`Pending`] is.
pub enum PendingModel {
    Nothing,
    Primary(int),
    Refinement(Seq<u8>),
}

impl View for Pending {
    type V = PendingModel;

    open spec fn view(&self) -> PendingModel {
        match *self {
            Pending::Nothing => PendingModel::Nothing,
            Pending::Primary(i) => PendingModel::Primary(i as int),
            Pending::Refinement(id) => PendingModel::Refinement(id@),
        }
    }
}

/// A refinement with the id of the item it refines.
#[derive(Debug)]
pub struct TargetedRefinement {
    pub target: Id,
    pub refinement: MetadataRefinement,
}

/// What a [`TargetedRefinement`] is.
pub struct TargetedModel {
    pub target: Seq<u8>,
    pub refinement: RefinementModel,
}

impl View for TargetedRefinement {
    type V = TargetedModel;

    open spec fn view(&self) -> TargetedModel {
        TargetedModel { target: self.target@, refinement: self.refinement@ }
    }
}

impl DeepView for TargetedRefinement {
    type V = TargetedModel;

    open spec fn deep_view(&self) -> TargetedModel {
        self@
    }
}

/// The reader's state between two events of the section.
#[derive(Debug)]
pub struct MetadataReader {
    /// Whether the package is of the older dialect, in which a Dublin
    /// Core element's attributes of the package namespace refine it.
    pub legacy: bool,
    pub items: Vec<MetadataItem>,
    pub refinements: Vec<TargetedRefinement>,
    pub pending: Pending,
}

/// What a [`MetadataReader`] is.
pub struct MetadataModel {
    pub legacy: bool,
    pub items: Seq<ItemModel>,
    pub refinements: Seq<TargetedModel>,
    pub pending: PendingModel,
}

impl View for MetadataReader {
    type V = MetadataModel;

    open spec fn view(&self) -> MetadataModel {
        MetadataModel {
            legacy: self.legacy,
            items: self.items.deep_view(),
            refinements: self.refinements.deep_view(),
            pending: self.pending@,
        }
    }
}

/// What a Dublin Core element's attributes say of its item.
pub struct DublinCoreModel {
    pub id: Option<Seq<u8>>,
    pub lang: Option<Seq<char>>,
    pub refined: Seq<RefinementModel>,
}

/// What one attribute adds to a Dublin Core item: an `id` or a `lang`, or,
/// in the older dialect, a refinement where the attribute is of the
/// package namespace. An error where the value is needed and cannot be
/// decoded.
pub open spec fn dublin_core_attribute(
    acc: DublinCoreModel,
    a: AttributeModel,
    legacy: bool,
) -> Result<DublinCoreModel, ()> {
    if a.local_name == utf8("id") {
        Ok(DublinCoreModel { id: Some(a.raw), ..acc })
    } else if a.local_name == utf8("lang") {
        match a.value {
            Some(v) => Ok(DublinCoreModel { lang: Some(v), ..acc }),
            None => Err(()),
        }
    } else if legacy && a.namespace == Some(opf()) {
        match a.value {
            Some(v) => Ok(
                DublinCoreModel {
                    refined: acc.refined.push(
                        RefinementModel {
                            property: lossy_text(a.local_name),
                            value: v,
                            lang: None,
                            scheme: None,
                        },
                    ),
                    ..acc
                },
            ),
            None => Err(()),
        }
    } else {
        Ok(acc)
    }
}

/// The attributes from `from` on, read in order onto `acc`. A place that
/// is no attribute is passed over.
pub open spec fn dublin_core_attributes(
    attributes: Seq<Option<AttributeModel>>,
    from: int,
    legacy: bool,
    acc: DublinCoreModel,
) -> Result<DublinCoreModel, ()>
    decreases attributes.len() - from,
{
    if from < 0 || from >= attributes.len() {
        Ok(acc)
    } else {
        match attributes[from] {
            None => dublin_core_attributes(attributes, from + 1, legacy, acc),
            Some(a) => match dublin_core_attribute(acc, a, legacy) {
                Err(_) => Err(()),
                Ok(next) => dublin_core_attributes(attributes, from + 1, legacy, next),
            },
        }
    }
}

/// The place of the last refinement before `end` that names `id`.
pub open spec fn last_target(refinements: Seq<TargetedModel>, id: Seq<u8>, end: int) -> Option<
    int,
>
    decreases end,
{
    if end <= 0 || end > refinements.len() {
        None
    } else if refinements[end - 1].target == id {
        Some(end - 1)
    } else {
        last_target(refinements, id, end - 1)
    }
}

impl MetadataModel {
    /// The state at the start of a section.
    pub open spec fn start(legacy: bool) -> MetadataModel {
        MetadataModel {
            legacy,
            items: Seq::empty(),
            refinements: Seq::empty(),
            pending: PendingModel::Nothing,
        }
    }

    /// A new item at the end, which then waits for its value.
    pub open spec fn with_item(self, item: ItemModel) -> MetadataModel {
        MetadataModel {
            items: self.items.push(item),
            pending: PendingModel::Primary(self.items.len() as int),
            ..self
        }
    }

    /// The state after a text event with the content `text`: what waited
    /// for a value has it, and nothing waits.
    pub open spec fn resolved(self, text: Seq<char>) -> MetadataModel {
        match self.pending {
            PendingModel::Nothing => self,
            PendingModel::Primary(i) => if 0 <= i < self.items.len() {
                MetadataModel {
                    items: self.items.update(i, ItemModel { value: text, ..self.items[i] }),
                    pending: PendingModel::Nothing,
                    ..self
                }
            } else {
                MetadataModel { pending: PendingModel::Nothing, ..self }
            },
            PendingModel::Refinement(id) => match last_target(
                self.refinements,
                id,
                self.refinements.len() as int,
            ) {
                Some(k) => MetadataModel {
                    refinements: self.refinements.update(
                        k,
                        TargetedModel {
                            target: self.refinements[k].target,
                            refinement: RefinementModel {
                                value: text,
                                ..self.refinements[k].refinement
                            },
                        },
                    ),
                    pending: PendingModel::Nothing,
                    ..self
                },
                None => MetadataModel { pending: PendingModel::Nothing, ..self },
            },
        }
    }

    /// The state after the start tag of a Dublin Core element.
    pub open spec fn dublin_core(self, ev: EventModel) -> Result<MetadataModel, ()> {
        match dublin_core_attributes(
            ev.unique,
            0,
            self.legacy,
            DublinCoreModel { id: None, lang: None, refined: Seq::empty() },
        ) {
            Err(_) => Err(()),
            Ok(dc) => Ok(
                self.with_item(
                    ItemModel {
                        id: dc.id,
                        property: lossy_text(ev.local_name),
                        value: Seq::empty(),
                        lang: dc.lang,
                        refined: dc.refined,
                        legacy: false,
                    },
                ),
            ),
        }
    }

    /// The state after the start tag of a `meta` element of the package
    /// namespace: without a `property` nothing changes; with `refines` it
    /// is a refinement of the item named there; otherwise an item.
    pub open spec fn opf_meta(self, ev: EventModel) -> Result<MetadataModel, ()> {
        match ev.attribute_text(utf8("property")) {
            Err(_) => Err(()),
            Ok(None) => Ok(self),
            Ok(Some(property)) => match ev.attribute_text(utf8("xml:lang")) {
                Err(_) => Err(()),
                Ok(lang) => match ev.attribute_raw(utf8("refines")) {
                    Err(_) => Err(()),
                    Ok(Some(refines)) => match ev.attribute_text(utf8("scheme")) {
                        Err(_) => Err(()),
                        Ok(scheme) => Ok(
                            MetadataModel {
                                refinements: self.refinements.push(
                                    TargetedModel {
                                        target: without_hash(refines),
                                        refinement: RefinementModel {
                                            property,
                                            value: Seq::empty(),
                                            lang,
                                            scheme,
                                        },
                                    },
                                ),
                                pending: PendingModel::Refinement(without_hash(refines)),
                                ..self
                            },
                        ),
                    },
                    Ok(None) => match ev.attribute_raw(utf8("id")) {
                        Err(_) => Err(()),
                        Ok(id) => Ok(
                            self.with_item(
                                ItemModel {
                                    id,
                                    property,
                                    value: Seq::empty(),
                                    lang,
                                    refined: Seq::empty(),
                                    legacy: false,
                                },
                            ),
                        ),
                    },
                },
            },
        }
    }

    /// The state after an empty `meta` element: with both a `name` and a
    /// `content` it is an item of the older form, complete at once.
    pub open spec fn legacy_meta(self, ev: EventModel) -> Result<MetadataModel, ()> {
        match ev.attribute_text(utf8("name")) {
            Err(_) => Err(()),
            Ok(name) => match ev.attribute_text(utf8("content")) {
                Err(_) => Err(()),
                Ok(content) => match (name, content) {
                    (Some(n), Some(c)) => Ok(
                        MetadataModel {
                            items: self.items.push(
                                ItemModel {
                                    id: None,
                                    property: n,
                                    value: c,
                                    lang: None,
                                    refined: Seq::empty(),
                                    legacy: true,
                                },
                            ),
                            ..self
                        },
                    ),
                    _ => Ok(self),
                },
            },
        }
    }

    /// The state after one event inside the section, or an error where
    /// the event holds something that cannot be decoded.
    pub open spec fn step(self, ev: EventModel) -> Result<MetadataModel, ()> {
        if ev.kind == XmlKind::Text && !(self.pending is Nothing) {
            match ev.text {
                Some(text) => Ok(self.resolved(text)),
                None => Err(()),
            }
        } else if ev.kind == XmlKind::Start && ev.namespace == Some(dublin_core()) {
            self.dublin_core(ev)
        } else if ev.kind == XmlKind::Start && ev.namespace == Some(opf()) && ev.local_name
            == utf8("meta") {
            self.opf_meta(ev)
        } else if ev.kind == XmlKind::Empty && ev.local_name == utf8("meta") {
            self.legacy_meta(ev)
        } else {
            Ok(self)
        }
    }

    /// The items of the section once it has ended.
    pub open spec fn finished(self) -> Seq<ItemModel> {
        merged(self.items, self.refinements)
    }
}

/// Whether item `i` is the first of `items` to carry its id.
pub open spec fn owns(items: Seq<ItemModel>, i: int) -> bool {
    &&& 0 <= i < items.len()
    &&& items[i].id is Some
    &&& forall|j: int| 0 <= j < i ==> (#[trigger] items[j]).id != items[i].id
}

/// The first `upto` refinements that name `id`, in their order.
pub open spec fn refinements_of(refinements: Seq<TargetedModel>, id: Seq<u8>, upto: int) -> Seq<
    RefinementModel,
>
    decreases upto,
{
    if upto <= 0 || upto > refinements.len() {
        Seq::empty()
    } else if refinements[upto - 1].target == id {
        refinements_of(refinements, id, upto - 1).push(refinements[upto - 1].refinement)
    } else {
        refinements_of(refinements, id, upto - 1)
    }
}

/// Item `i` with the refinements that fall to it: all that name its id,
/// where it is the first item with that id, and none otherwise.
pub open spec fn merged_item(
    items: Seq<ItemModel>,
    refinements: Seq<TargetedModel>,
    i: int,
) -> ItemModel {
    if owns(items, i) {
        ItemModel {
            refined: items[i].refined + refinements_of(
                refinements,
                items[i].id->0,
                refinements.len() as int,
            ),
            ..items[i]
        }
    } else {
        items[i]
    }
}

/// The items, each with the refinements that fall to it. A refinement
/// that names no item's id falls to none.
pub open spec fn merged(items: Seq<ItemModel>, refinements: Seq<TargetedModel>) -> Seq<ItemModel> {
    Seq::new(items.len(), |i: int| merged_item(items, refinements, i))
}

/// Whether the outcome `done` of a step that left the reader in the state
/// `after` is the outcome `expected`.
pub open spec fn agrees(expected: Result<MetadataModel, ()>, done: Result<(), ()>, after: MetadataModel) -> bool {
    match done {
        Ok(_) => expected == Ok::<MetadataModel, ()>(after),
        Err(_) => expected is Err,
    }
}

struct DublinCore {
    id: Option<Id>,
    lang: Option<String>,
    refined: Vec<MetadataRefinement>,
}

impl View for DublinCore {
    type V = DublinCoreModel;

    closed spec fn view(&self) -> DublinCoreModel {
        DublinCoreModel {
            id: bytes_opt(self.id),
            lang: chars_opt(self.lang),
            refined: self.refined.deep_view(),
        }
    }
}

impl DublinCore {
    fn attribute(&mut self, a: &XmlAttribute, legacy: bool) -> (r: Result<(), ()>)
        ensures
            match r {
                Ok(_) => dublin_core_attribute(old(self)@, a@, legacy) == Ok::<
                    DublinCoreModel,
                    (),
                >(final(self)@),
                Err(_) => dublin_core_attribute(old(self)@, a@, legacy) is Err,
            },
    {
        if bytes_are(a.local_name.as_slice(), "id") {
            self.id = Some(copy_bytes(a.raw.as_slice()));
            Ok(())
        } else if bytes_are(a.local_name.as_slice(), "lang") {
            match &a.value {
                Some(v) => {
                    self.lang = Some(v.clone());
                    Ok(())
                },
                None => Err(()),
            }
        } else if legacy && is_namespace(&a.namespace, "http://www.idpf.org/2007/opf") {
            match &a.value {
                Some(v) => {
                    let refinement = MetadataRefinement {
                        property: utf8_lossy(a.local_name.as_slice()),
                        value: v.clone(),
                        lang: None,
                        scheme: None,
                    };
                    self.refined.push(refinement);
                    assert(self@.refined =~= old(self)@.refined.push(refinement@));
                    Ok(())
                },
                None => Err(()),
            }
        } else {
            Ok(())
        }
    }
}

impl MetadataReader {
    /// The reader at the start of a section.
    pub fn new(legacy: bool) -> (r: MetadataReader)
        ensures
            r@ == MetadataModel::start(legacy),
    {
        let r = MetadataReader {
            legacy,
            items: Vec::new(),
            refinements: Vec::new(),
            pending: Pending::Nothing,
        };
        assert(r@.items =~= Seq::empty());
        assert(r@.refinements =~= Seq::empty());
        r
    }

    fn push_item(&mut self, item: MetadataItem)
        ensures
            final(self)@ == old(self)@.with_item(item@),
    {
        let at = self.items.len();
        self.items.push(item);
        self.pending = Pending::Primary(at);
        assert(self@.items =~= old(self)@.items.push(item@));
    }

    fn find_last(&self, id: &[u8]) -> (r: Option<usize>)
        ensures
            match r {
                Some(k) => k < self.refinements.len() && last_target(
                    self@.refinements,
                    id@,
                    self.refinements.len() as int,
                ) == Some(k as int),
                None => last_target(self@.refinements, id@, self.refinements.len() as int)
                    is None,
            },
    {
        let mut end: usize = self.refinements.len();
        while end > 0
            invariant
                end <= self.refinements.len(),
                last_target(self@.refinements, id@, self.refinements.len() as int) == last_target(
                    self@.refinements,
                    id@,
                    end as int,
                ),
            decreases end,
        {
            if bytes_eq(self.refinements[end - 1].target.as_slice(), id) {
                return Some(end - 1);
            }
            end -= 1;
        }
        None
    }

    fn resolve(&mut self, text: String)
        ensures
            final(self)@ == old(self)@.resolved(text@),
    {
        let mut pending = Pending::Nothing;
        std::mem::swap(&mut self.pending, &mut pending);
        match pending {
            Pending::Nothing => {
                assert(self@ =~= old(self)@);
            },
            Pending::Primary(i) => {
                if i < self.items.len() {
                    self.items[i].value = text;
                    assert(self@.items =~= old(self)@.items.update(
                        i as int,
                        ItemModel { value: text@, ..old(self)@.items[i as int] },
                    ));
                }
                assert(self@.refinements =~= old(self)@.refinements);
            },
            Pending::Refinement(id) => {
                match self.find_last(id.as_slice()) {
                    Some(k) => {
                        self.refinements[k].refinement.value = text;
                        assert(self@.refinements =~= old(self)@.refinements.update(
                            k as int,
                            TargetedModel {
                                target: old(self)@.refinements[k as int].target,
                                refinement: RefinementModel {
                                    value: text@,
                                    ..old(self)@.refinements[k as int].refinement
                                },
                            },
                        ));
                    },
                    None => {},
                }
                assert(self@.items =~= old(self)@.items);
            },
        }
    }

    fn dublin_core(&mut self, ev: &XmlEvent) -> (r: Result<(), ()>)
        ensures
            agrees(old(self)@.dublin_core(ev@), r, final(self)@),
    {
        let mut dc = DublinCore { id: None, lang: None, refined: Vec::new() };
        assert(dc@.refined =~= Seq::empty());
        let ghost first = dc@;
        assert(first == DublinCoreModel { id: None, lang: None, refined: Seq::empty() });
        let mut i: usize = 0;
        while i < ev.unique.len()
            invariant
                i <= ev.unique.len(),
                *self == *old(self),
                first == (DublinCoreModel { id: None, lang: None, refined: Seq::empty() }),
                dublin_core_attributes(ev@.unique, 0, self.legacy, first)
                    == dublin_core_attributes(ev@.unique, i as int, self.legacy, dc@),
            decreases ev.unique.len() - i,
        {
            match &ev.unique[i] {
                Some(a) => {
                    assert(ev@.unique[i as int] == Some(a@));
                    let ghost before = dc@;
                    assert(dublin_core_attributes(ev@.unique, 0, self.legacy, first)
                        == dublin_core_attributes(ev@.unique, i as int, self.legacy, before));
                    match dc.attribute(a, self.legacy) {
                        Ok(_) => {},
                        Err(_) => {
                            assert(dublin_core_attributes(
                                ev@.unique,
                                i as int,
                                self.legacy,
                                before,
                            ) is Err);
                            assert(old(self)@.dublin_core(ev@) is Err);
                            return Err(());
                        },
                    }
                },
                None => {
                    assert(ev@.unique[i as int] is None);
                },
            }
            i += 1;
        }
        let item = MetadataItem {
            id: dc.id,
            property: utf8_lossy(ev.local_name.as_slice()),
            value: String::new(),
            lang: dc.lang,
            refined: dc.refined,
            legacy: false,
        };
        self.push_item(item);
        Ok(())
    }

    fn opf_meta(&mut self, ev: &XmlEvent) -> (r: Result<(), ()>)
        ensures
            agrees(old(self)@.opf_meta(ev@), r, final(self)@),
    {
        let property = match ev.attribute_text("property") {
            Err(_) => {
                return Err(());
            },
            Ok(None) => {
                return Ok(());
            },
            Ok(Some(p)) => p,
        };
        let lang = match ev.attribute_text("xml:lang") {
            Err(_) => {
                return Err(());
            },
            Ok(l) => l,
        };
        let refines = match ev.attribute_raw("refines") {
            Err(_) => {
                return Err(());
            },
            Ok(r) => r,
        };
        match refines {
            Some(refines) => {
                let scheme = match ev.attribute_text("scheme") {
                    Err(_) => {
                        return Err(());
                    },
                    Ok(s) => s,
                };
                let target = strip_hash(refines.as_slice());
                let again = copy_bytes(target.as_slice());
                let entry = TargetedRefinement {
                    target,
                    refinement: MetadataRefinement {
                        property,
                        value: String::new(),
                        lang,
                        scheme,
                    },
                };
                self.refinements.push(entry);
                self.pending = Pending::Refinement(again);
                assert(self@.refinements =~= old(self)@.refinements.push(entry@));
                assert(self@.items =~= old(self)@.items);
                Ok(())
            },
            None => {
                let id = match ev.attribute_raw("id") {
                    Err(_) => {
                        return Err(());
                    },
                    Ok(id) => id,
                };
                let item = MetadataItem {
                    id,
                    property,
                    value: String::new(),
                    lang,
                    refined: Vec::new(),
                    legacy: false,
                };
                assert(item@.refined =~= Seq::empty());
                self.push_item(item);
                Ok(())
            },
        }
    }

    fn legacy_meta(&mut self, ev: &XmlEvent) -> (r: Result<(), ()>)
        ensures
            agrees(old(self)@.legacy_meta(ev@), r, final(self)@),
    {
        let name = match ev.attribute_text("name") {
            Err(_) => {
                return Err(());
            },
            Ok(n) => n,
        };
        let content = match ev.attribute_text("content") {
            Err(_) => {
                return Err(());
            },
            Ok(c) => c,
        };
        match (name, content) {
            (Some(n), Some(c)) => {
                let item = MetadataItem {
                    id: None,
                    property: n,
                    value: c,
                    lang: None,
                    refined: Vec::new(),
                    legacy: true,
                };
                assert(item@.refined =~= Seq::empty());
                self.items.push(item);
                assert(self@.items =~= old(self)@.items.push(item@));
                assert(self@.refinements =~= old(self)@.refinements);
                Ok(())
            },
            _ => Ok(()),
        }
    }

    /// Takes one event of the section. An error means that the event
    /// holds something that cannot be decoded.
    pub fn feed(&mut self, ev: &XmlEvent) -> (r: Result<(), ()>)
        ensures
            agrees(old(self)@.step(ev@), r, final(self)@),
    {
        let waiting = match &self.pending {
            Pending::Nothing => false,
            _ => true,
        };
        if ev.kind == XmlKind::Text && waiting {
            match &ev.text {
                Some(text) => {
                    self.resolve(text.clone());
                    Ok(())
                },
                None => Err(()),
            }
        } else if ev.kind == XmlKind::Start && is_namespace(
            &ev.namespace,
            "http://purl.org/dc/elements/1.1/",
        ) {
            self.dublin_core(ev)
        } else if ev.kind == XmlKind::Start && is_namespace(
            &ev.namespace,
            "http://www.idpf.org/2007/opf",
        ) && bytes_are(ev.local_name.as_slice(), "meta") {
            self.opf_meta(ev)
        } else if ev.kind == XmlKind::Empty && bytes_are(ev.local_name.as_slice(), "meta") {
            self.legacy_meta(ev)
        } else {
            Ok(())
        }
    }

    /// The id of item `i`, where the item is the first to carry it.
    fn owned_id(&self, i: usize) -> (r: Option<&Id>)
        requires
            i < self.items.len(),
        ensures
            match r {
                Some(id) => owns(self@.items, i as int) && self@.items[i as int].id == Some(id@),
                None => !owns(self@.items, i as int),
            },
    {
        let id = match &self.items[i].id {
            Some(id) => id,
            None => {
                return None;
            },
        };
        let mut j: usize = 0;
        while j < i
            invariant
                j <= i < self.items.len(),
                self@.items[i as int].id == Some(id@),
                forall|k: int| 0 <= k < j ==> (#[trigger] self@.items[k]).id != Some(id@),
            decreases i - j,
        {
            match &self.items[j].id {
                Some(other) => {
                    if bytes_eq(other.as_slice(), id.as_slice()) {
                        assert(self@.items[j as int].id == self@.items[i as int].id);
                        return None;
                    }
                },
                None => {},
            }
            j += 1;
        }
        Some(id)
    }

    /// Ends the section: each item gets the refinements that name its id.
    pub fn finish(self) -> (r: Vec<MetadataItem>)
        ensures
            r.deep_view() == self@.finished(),
    {
        let mut out: Vec<MetadataItem> = Vec::new();
        let mut i: usize = 0;
        while i < self.items.len()
            invariant
                i <= self.items.len(),
                out.len() == i,
                forall|j: int|
                    0 <= j < i ==> (#[trigger] out[j])@ == merged_item(
                        self@.items,
                        self@.refinements,
                        j,
                    ),
            decreases self.items.len() - i,
        {
            let mut item = self.items[i].duplicate();
            let ghost plain = item@;
            assert(plain == self@.items[i as int]);
            if let Some(id) = self.owned_id(i) {
                let mut k: usize = 0;
                while k < self.refinements.len()
                    invariant
                        k <= self.refinements.len(),
                        plain.id == Some(id@),
                        item@ == (ItemModel {
                            refined: plain.refined + refinements_of(
                                self@.refinements,
                                id@,
                                k as int,
                            ),
                            ..plain
                        }),
                    decreases self.refinements.len() - k,
                {
                    if bytes_eq(self.refinements[k].target.as_slice(), id.as_slice()) {
                        let extra = self.refinements[k].refinement.duplicate();
                        let ghost grown = item@.refined;
                        item.refined.push(extra);
                        assert(self@.refinements[k as int].refinement == extra@);
                        assert(self@.refinements[k as int].target == id@);
                        assert(item@.refined =~= grown.push(extra@));
                        assert(refinements_of(self@.refinements, id@, k + 1) == refinements_of(
                            self@.refinements,
                            id@,
                            k as int,
                        ).push(extra@));
                        assert(item@.refined =~= plain.refined + refinements_of(
                            self@.refinements,
                            id@,
                            k + 1,
                        ));
                    }
                    k += 1;
                }
            } else {
                assert(item@ == merged_item(self@.items, self@.refinements, i as int));
            }
            out.push(item);
            i += 1;
        }
        assert(out.deep_view() =~= self@.finished());
        out
    }
}

} // verus!
