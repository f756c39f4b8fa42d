//! The package document's data: version, metadata, manifest and spine.

use vstd::prelude::*;

use crate::manifest::{EntryModel, Manifest};
use crate::text::{bytes_opt, chars_opt, copy_bytes_opt, copy_text_opt};
use crate::xml::XmlFault;

verus! {

/// An identifier of the package document, as the bytes written there.
pub type Id = Vec<u8>;

/// Why a package document is rejected.
#[derive(Clone, Copy, Debug, PartialEq, Eq, Structural)]
pub enum Error {
    /// The document is missing or is not a package document.
    Generic,
    /// A manifest item lacks a required attribute.
    Manifest,
    /// A spine itemref lacks its idref, or names no manifest item.
    Spine,
}

impl Error {
    /// The message shown for this error.
    pub fn message(&self) -> (r: String)
        ensures
            r@ == match *self {
                Error::Generic => "EPUB package document is missing or invalid"@,
                Error::Manifest => "EPUB package document has invalid manifest"@,
                Error::Spine => "EPUB package document has invalid spine"@,
            },
    {
        match self {
            Error::Generic => "EPUB package document is missing or invalid".to_owned(),
            Error::Manifest => "EPUB package document has invalid manifest".to_owned(),
            Error::Spine => "EPUB package document has invalid spine".to_owned(),
        }
    }
}

/// The two dialects of package document.
#[derive(Clone, Copy, Debug, PartialEq, Eq, Structural)]
pub enum Version {
    Epub2_0,
    Epub3_0,
}

/// Whether `[from, to)` is one of the pieces that `text` falls into when
/// it is cut at every space.
pub open spec fn is_piece(text: Seq<char>, from: int, to: int) -> bool {
    &&& 0 <= from <= to <= text.len()
    &&& from == 0 || text[from - 1] == ' '
    &&& to == text.len() || text[to] == ' '
    &&& forall|k: int| from <= k < to ==> text[k] != ' '
}

/// Whether `token` is one of the pieces of `text` cut at its spaces.
pub open spec fn has_token(text: Seq<char>, token: Seq<char>) -> bool {
    exists|from: int, to: int| #[trigger]
        is_piece(text, from, to) && text.subrange(from, to) == token
}

fn chars_of(s: &str) -> (r: Vec<char>)
    ensures
        r@ == s@,
{
    let mut out: Vec<char> = Vec::new();
    for c in it: s.chars()
        invariant
            out@ == it.seq().take(it.index()),
    {
        out.push(c);
    }
    out
}

/// A set of property names, written as one string with a space between
/// each two.
#[derive(Clone, Debug, PartialEq, Eq)]
pub struct PropertiesValue(pub String);

impl View for PropertiesValue {
    type V = Seq<char>;

    open spec fn view(&self) -> Seq<char> {
        self.0@
    }
}

impl PropertiesValue {
    /// Whether `property` is one of the names.
    pub fn has(&self, property: &str) -> (r: bool)
        ensures
            r == has_token(self@, property@),
    {
        let text = chars_of(self.0.as_str());
        let token = chars_of(property);
        let n = text.len();
        let mut from: usize = 0;
        loop
            invariant
                n == text.len(),
                text@ == self@,
                token@ == property@,
                from <= n,
                from == 0 || text@[from - 1] == ' ',
                forall|a: int, b: int|
                    a < from && #[trigger] is_piece(text@, a, b) ==> text@.subrange(a, b)
                        != token@,
            decreases n - from,
        {
            let mut to: usize = from;
            while to < n && text[to] != ' '
                invariant
                    n == text.len(),
                    from <= to <= n,
                    forall|k: int| from <= k < to ==> text@[k] != ' ',
                decreases n - to,
            {
                to += 1;
            }
            assert(is_piece(text@, from as int, to as int));
            let mut same = to - from == token.len();
            let mut k: usize = 0;
            while same && k < token.len()
                invariant
                    n == text.len(),
                    from <= to <= n,
                    k <= token.len(),
                    same ==> to - from == token.len(),
                    same ==> forall|j: int| 0 <= j < k ==> text@[from + j] == token@[j],
                    !same ==> text@.subrange(from as int, to as int) != token@,
                decreases token.len() - k + if same { 1int } else { 0int },
            {
                if text[from + k] != token[k] {
                    same = false;
                    assert(text@.subrange(from as int, to as int)[k as int] != token@[k as int]);
                } else {
                    k += 1;
                }
            }
            if same {
                assert(text@.subrange(from as int, to as int) =~= token@);
                return true;
            }
            assert forall|a: int, b: int|
                a < to + 1 && #[trigger] is_piece(text@, a, b) implies text@.subrange(a, b)
                != token@ by {
                if a == from {
                    if b < to {
                        assert(text@[b] != ' ');
                    } else if b > to {
                        assert(text@[to as int] != ' ');
                    }
                } else if a > from {
                    assert(text@[a - 1] != ' ');
                }
            }
            if to == n {
                return false;
            }
            from = to + 1;
        }
    }
}

/// The names held by optional properties.
pub open spec fn properties_opt(o: Option<PropertiesValue>) -> Option<Seq<char>> {
    match o {
        Some(p) => Some(p@),
        None => None,
    }
}

/// A statement about another metadata item, which it names by id.
#[derive(Clone, Debug)]
pub struct MetadataRefinement {
    pub property: String,
    pub value: String,
    pub lang: Option<String>,
    pub scheme: Option<String>,
}

/// What a [`MetadataRefinement`] is.
pub struct RefinementModel {
    pub property: Seq<char>,
    pub value: Seq<char>,
    pub lang: Option<Seq<char>>,
    pub scheme: Option<Seq<char>>,
}

impl View for MetadataRefinement {
    type V = RefinementModel;

    open spec fn view(&self) -> RefinementModel {
        RefinementModel {
            property: self.property@,
            value: self.value@,
            lang: chars_opt(self.lang),
            scheme: chars_opt(self.scheme),
        }
    }
}

impl DeepView for MetadataRefinement {
    type V = RefinementModel;

    open spec fn deep_view(&self) -> RefinementModel {
        self@
    }
}

impl MetadataRefinement {
    /// A second refinement with the same content.
    pub fn duplicate(&self) -> (r: MetadataRefinement)
        ensures
            r@ == self@,
    {
        MetadataRefinement {
            property: self.property.clone(),
            value: self.value.clone(),
            lang: copy_text_opt(&self.lang),
            scheme: copy_text_opt(&self.scheme),
        }
    }
}

/// One statement of the metadata section, with the refinements that name
/// it.
#[derive(Clone, Debug)]
pub struct MetadataItem {
    pub id: Option<Id>,
    pub property: String,
    pub value: String,
    pub lang: Option<String>,
    pub refined: Vec<MetadataRefinement>,
    /// Set for an item written as a `meta` element with `name` and
    /// `content`.
    pub legacy: bool,
}

/// What a [`MetadataItem`] is.
pub struct ItemModel {
    pub id: Option<Seq<u8>>,
    pub property: Seq<char>,
    pub value: Seq<char>,
    pub lang: Option<Seq<char>>,
    pub refined: Seq<RefinementModel>,
    pub legacy: bool,
}

impl View for MetadataItem {
    type V = ItemModel;

    open spec fn view(&self) -> ItemModel {
        ItemModel {
            id: bytes_opt(self.id),
            property: self.property@,
            value: self.value@,
            lang: chars_opt(self.lang),
            refined: self.refined.deep_view(),
            legacy: self.legacy,
        }
    }
}

impl DeepView for MetadataItem {
    type V = ItemModel;

    open spec fn deep_view(&self) -> ItemModel {
        self@
    }
}

impl MetadataItem {
    /// A second item with the same content.
    pub fn duplicate(&self) -> (r: MetadataItem)
        ensures
            r@ == self@,
    {
        let mut refined: Vec<MetadataRefinement> = Vec::new();
        let mut k: usize = 0;
        while k < self.refined.len()
            invariant
                k <= self.refined.len(),
                refined.len() == k,
                forall|j: int| 0 <= j < k ==> (#[trigger] refined[j])@ == self.refined[j]@,
            decreases self.refined.len() - k,
        {
            refined.push(self.refined[k].duplicate());
            k += 1;
        }
        assert(refined.deep_view() =~= self.refined.deep_view());
        MetadataItem {
            id: copy_bytes_opt(&self.id),
            property: self.property.clone(),
            value: self.value.clone(),
            lang: copy_text_opt(&self.lang),
            refined,
            legacy: self.legacy,
        }
    }
}

/// The metadata section.
pub type Metadata = Vec<MetadataItem>;

/// A resource that the manifest declares.
#[derive(Clone, Debug, PartialEq, Eq)]
pub struct ResourceItem {
    pub href: String,
    pub media_type: String,
    pub properties: Option<PropertiesValue>,
}

/// What a [`ResourceItem`] is.
pub struct ResourceModel {
    pub href: Seq<char>,
    pub media_type: Seq<char>,
    pub properties: Option<Seq<char>>,
}

impl ResourceModel {
    /// Whether the resource's properties name `property`.
    pub open spec fn has(self, property: Seq<char>) -> bool {
        self.properties matches Some(p) && has_token(p, property)
    }
}

impl View for ResourceItem {
    type V = ResourceModel;

    open spec fn view(&self) -> ResourceModel {
        ResourceModel {
            href: self.href@,
            media_type: self.media_type@,
            properties: properties_opt(self.properties),
        }
    }
}

impl DeepView for ResourceItem {
    type V = ResourceModel;

    open spec fn deep_view(&self) -> ResourceModel {
        self@
    }
}

impl ResourceItem {
    /// A second resource with the same content.
    pub fn duplicate(&self) -> (r: ResourceItem)
        ensures
            r@ == self@,
    {
        ResourceItem {
            href: self.href.clone(),
            media_type: self.media_type.clone(),
            properties: match &self.properties {
                Some(p) => Some(PropertiesValue(p.0.clone())),
                None => None,
            },
        }
    }

    /// Whether the resource's properties name `property`.
    pub fn has(&self, property: &str) -> (r: bool)
        ensures
            r == self@.has(property@),
    {
        match &self.properties {
            Some(p) => p.has(property),
            None => false,
        }
    }
}

/// One place in the reading order.
#[derive(Clone, Debug, Eq, PartialEq)]
pub struct Itemref {
    pub idref: Id,
    pub properties: Option<PropertiesValue>,
}

/// What an [`Itemref`] is.
pub struct ItemrefModel {
    pub idref: Seq<u8>,
    pub properties: Option<Seq<char>>,
}

impl View for Itemref {
    type V = ItemrefModel;

    open spec fn view(&self) -> ItemrefModel {
        ItemrefModel { idref: self.idref@, properties: properties_opt(self.properties) }
    }
}

impl DeepView for Itemref {
    type V = ItemrefModel;

    open spec fn deep_view(&self) -> ItemrefModel {
        self@
    }
}

/// The reading order.
#[derive(Debug)]
pub struct Spine {
    /// The id of the NCX resource, where the spine names one.
    pub toc: Option<Id>,
    pub itemrefs: Vec<Itemref>,
}

/// What a [`Spine`] is.
pub struct SpineModel {
    pub toc: Option<Seq<u8>>,
    pub itemrefs: Seq<ItemrefModel>,
}

impl View for Spine {
    type V = SpineModel;

    open spec fn view(&self) -> SpineModel {
        SpineModel { toc: bytes_opt(self.toc), itemrefs: self.itemrefs.deep_view() }
    }
}

impl Default for Spine {
    fn default() -> (r: Spine)
        ensures
            r@ == (SpineModel { toc: None, itemrefs: Seq::empty() }),
    {
        let r = Spine { toc: None, itemrefs: Vec::new() };
        assert(r@.itemrefs =~= Seq::empty());
        r
    }
}

/// What a package document says, and not much more.
#[derive(Debug)]
pub struct Package {
    pub version: Version,
    pub metadata: Metadata,
    pub manifest: Manifest,
    pub spine: Spine,
}

/// What a [`Package`] is.
pub struct PackageModel {
    pub version: Version,
    pub metadata: Seq<ItemModel>,
    pub manifest: Seq<EntryModel>,
    pub spine: SpineModel,
}

impl PackageModel {
    /// The package before anything is read: the older dialect, and
    /// nothing declared.
    pub open spec fn empty() -> PackageModel {
        PackageModel {
            version: Version::Epub2_0,
            metadata: Seq::empty(),
            manifest: Seq::empty(),
            spine: SpineModel { toc: None, itemrefs: Seq::empty() },
        }
    }
}

impl View for Package {
    type V = PackageModel;

    open spec fn view(&self) -> PackageModel {
        PackageModel {
            version: self.version,
            metadata: self.metadata.deep_view(),
            manifest: self.manifest@,
            spine: self.spine@,
        }
    }
}

/// Why reading a package document failed: the document is rejected, or
/// its bytes could not be had.
#[derive(Clone, Copy, Debug)]
pub enum Failure {
    Package(Error),
    Io(std::io::ErrorKind),
}

/// The failure that a fault of the XML reader amounts to.
pub open spec fn failure_of(fault: XmlFault) -> Failure {
    match fault {
        XmlFault::Io(kind) => Failure::Io(kind),
        XmlFault::Malformed => Failure::Package(Error::Generic),
    }
}

} // verus!
