//! The publication: the resources of a package in reading order, found
//! by URL, and the steps from one to the next.

use vstd::hash_map::StringHashMap;
use vstd::prelude::*;
use vstd::utf8::encode_utf8;

use crate::address::{url_join, url_joined, url_str, url_text};
use crate::error::{EpubError, UrlNotFoundErr};
use crate::manifest::{lookup, removed, values, EntryModel};
use crate::package::{
    Error,
    ItemModel,
    ItemrefModel,
    Metadata,
    MetadataItem,
    Package,
    PackageModel,
    ResourceItem,
    ResourceModel,
    Version,
};
use crate::text::{bytes_eq, bytes_opt, copy_bytes, str_eq};

verus! {

/// Where a URL leads: the place of the resource among the resources,
/// and its place in the reading order if it has one.
#[derive(Clone, Copy, Debug, PartialEq, Eq)]
pub struct ResourceIndex(pub usize, pub Option<usize>);

/// What a publication is.
pub struct EpubModel {
    pub version: Version,
    pub metadata: Seq<ItemModel>,
    /// The resources: those of the reading order first and in that
    /// order, then the others in the order of the manifest.
    pub resources: Seq<ResourceModel>,
    /// The absolute URL of each resource.
    pub urls: Seq<Seq<char>>,
    /// For each place of the reading order, the place of its resource.
    pub spine: Seq<int>,
    pub index: Map<Seq<char>, ResourceIndex>,
    pub legacy_toc: Option<int>,
    pub legacy_cover: Option<int>,
}

/// The place of the first item from `from` on whose property is
/// `property`.
pub open spec fn first_with_property(
    metadata: Seq<ItemModel>,
    property: Seq<char>,
    from: int,
) -> Option<int>
    decreases metadata.len() - from,
{
    if from < 0 || from >= metadata.len() {
        None
    } else if metadata[from].property == property {
        Some(from)
    } else {
        first_with_property(metadata, property, from + 1)
    }
}

/// The place of the first resource from `from` on whose properties name
/// `property`.
pub open spec fn first_with_token(
    resources: Seq<ResourceModel>,
    property: Seq<char>,
    from: int,
) -> Option<int>
    decreases resources.len() - from,
{
    if from < 0 || from >= resources.len() {
        None
    } else if resources[from].has(property) {
        Some(from)
    } else {
        first_with_token(resources, property, from + 1)
    }
}

/// The id that the metadata give for the cover: the value of the first
/// item whose property is `cover`, as bytes.
pub open spec fn cover_id(metadata: Seq<ItemModel>) -> Option<Seq<u8>> {
    match first_with_property(metadata, "cover"@, 0) {
        Some(i) => Some(encode_utf8(metadata[i].value)),
        None => None,
    }
}

impl EpubModel {
    /// A publication without resources.
    pub open spec fn blank(version: Version, metadata: Seq<ItemModel>) -> EpubModel {
        EpubModel {
            version,
            metadata,
            resources: Seq::empty(),
            urls: Seq::empty(),
            spine: Seq::empty(),
            index: Map::empty(),
            legacy_toc: None,
            legacy_cover: None,
        }
    }

    /// The publication with one more resource at the end, found under
    /// `url` from now on, and last in the reading order if `in_spine`.
    pub open spec fn with_resource(
        self,
        item: ResourceModel,
        url: Seq<char>,
        in_spine: bool,
    ) -> EpubModel {
        let at = self.resources.len();
        EpubModel {
            resources: self.resources.push(item),
            urls: self.urls.push(url),
            spine: if in_spine {
                self.spine.push(at as int)
            } else {
                self.spine
            },
            index: self.index.insert(
                url,
                ResourceIndex(
                    at as usize,
                    if in_spine {
                        Some(self.spine.len() as usize)
                    } else {
                        None
                    },
                ),
            ),
            ..self
        }
    }

    /// The rules that every publication keeps.
    pub open spec fn wf(self) -> bool {
        &&& self.urls.len() == self.resources.len()
        &&& self.resources.len() <= usize::MAX
        &&& self.spine.len() <= self.resources.len()
        &&& forall|i: int| 0 <= i < self.spine.len() ==> #[trigger] self.spine[i] == i
        &&& forall|u: Seq<char>| #[trigger]
            self.index.contains_key(u) ==> {
                &&& self.index[u].0 < self.resources.len()
                &&& self.urls[self.index[u].0 as int] == u
                &&& self.index[u].1 == if self.index[u].0 < self.spine.len() {
                    Some(self.index[u].0)
                } else {
                    None
                }
            }
        &&& forall|i: int|
            0 <= i < self.urls.len() ==> self.index.contains_key(#[trigger] self.urls[i])
        &&& self.legacy_toc matches Some(i) ==> 0 <= i < self.spine.len()
        &&& self.legacy_cover matches Some(i) ==> 0 <= i < self.spine.len()
    }

    /// The resource a step from `url` arrives at: the next or the
    /// previous one of the reading order. There is none where `url` is
    /// outside the reading order, or at the end that the step leaves by.
    pub open spec fn navigate_from(self, url: Seq<char>, forward: bool) -> Result<
        Option<ResourceModel>,
        UrlNotFoundErr,
    > {
        if !self.index.contains_key(url) {
            Err(UrlNotFoundErr)
        } else {
            match self.index[url].1 {
                None => Ok(None),
                Some(at) => if forward {
                    if at + 1 >= self.spine.len() {
                        Ok(None)
                    } else {
                        Ok(Some(self.resources[self.spine[at + 1]]))
                    }
                } else {
                    if at == 0 || at > self.spine.len() {
                        Ok(None)
                    } else {
                        Ok(Some(self.resources[self.spine[at - 1]]))
                    }
                },
            }
        }
    }

    /// The resource at `url`, and whether it is in the reading order.
    pub open spec fn navigate_to(self, url: Seq<char>) -> Result<
        (ResourceModel, bool),
        UrlNotFoundErr,
    > {
        if !self.index.contains_key(url) {
            Err(UrlNotFoundErr)
        } else {
            Ok((self.resources[self.index[url].0 as int], self.index[url].1 is Some))
        }
    }

    /// The resource at `url`.
    pub open spec fn resource(self, url: Seq<char>) -> Result<ResourceModel, UrlNotFoundErr> {
        if !self.index.contains_key(url) {
            Err(UrlNotFoundErr)
        } else {
            Ok(self.resources[self.index[url].0 as int])
        }
    }

    /// The first metadata item whose property is `title`.
    pub open spec fn title(self) -> Option<ItemModel> {
        match first_with_property(self.metadata, "title"@, 0) {
            Some(i) => Some(self.metadata[i]),
            None => None,
        }
    }

    /// The cover the older dialect knows: the resource of the reading
    /// order whose id the metadata give for the cover.
    pub open spec fn legacy_cover_item(self) -> Option<ResourceModel> {
        match self.legacy_cover {
            Some(i) => Some(self.resources[i]),
            None => None,
        }
    }

    /// The cover image: in the newer dialect the first resource marked
    /// `cover-image`, and otherwise what the older dialect knows.
    pub open spec fn cover(self) -> Option<ResourceModel> {
        if self.version == Version::Epub3_0 {
            match first_with_token(self.resources, "cover-image"@, 0) {
                Some(i) => Some(self.resources[i]),
                None => self.legacy_cover_item(),
            }
        } else {
            self.legacy_cover_item()
        }
    }

    /// The navigation document: in the newer dialect the first resource
    /// marked `nav`; the older dialect has none.
    pub open spec fn nav(self) -> Option<ResourceModel> {
        if self.version == Version::Epub3_0 {
            match first_with_token(self.resources, "nav"@, 0) {
                Some(i) => Some(self.resources[i]),
                None => None,
            }
        } else {
            None
        }
    }
}

/// Whether the resource at `at` is the only one at its URL.
pub open spec fn alone_at(urls: Seq<Seq<char>>, at: int) -> bool {
    forall|j: int| 0 <= j < urls.len() && j != at ==> #[trigger] urls[j] != urls[at]
}

/// The reading order from `from` on, placed onto `e`: each itemref takes
/// its resource out of `manifest` and puts it at the end of `e`. The
/// result is `e` with what is left of the manifest; an itemref whose id
/// the manifest does not hold is a spine error, and a resource whose
/// `href` does not resolve against `base` an invalid href.
pub open spec fn place_spine(
    e: EpubModel,
    manifest: Seq<EntryModel>,
    itemrefs: Seq<ItemrefModel>,
    from: int,
    base: Seq<char>,
    toc: Option<Seq<u8>>,
    cover: Option<Seq<u8>>,
) -> Result<(EpubModel, Seq<EntryModel>), EpubError>
    decreases itemrefs.len() - from,
{
    if from < 0 || from >= itemrefs.len() {
        Ok((e, manifest))
    } else {
        let idref = itemrefs[from].idref;
        match lookup(manifest, idref) {
            None => Err(EpubError::PackageDoc(Error::Spine)),
            Some(item) => match url_joined(base, item.href) {
                None => Err(EpubError::InvalidHref),
                Some(url) => {
                    let at = e.resources.len() as int;
                    let placed = e.with_resource(item, url, true);
                    let marked = EpubModel {
                        legacy_toc: if toc == Some(idref) {
                            Some(at)
                        } else {
                            placed.legacy_toc
                        },
                        legacy_cover: if cover == Some(idref) {
                            Some(at)
                        } else {
                            placed.legacy_cover
                        },
                        ..placed
                    };
                    place_spine(
                        marked,
                        removed(manifest, idref),
                        itemrefs,
                        from + 1,
                        base,
                        toc,
                        cover,
                    )
                },
            },
        }
    }
}

/// The resources from `from` on, placed onto `e` outside the reading
/// order.
pub open spec fn place_rest(
    e: EpubModel,
    items: Seq<ResourceModel>,
    from: int,
    base: Seq<char>,
) -> Result<EpubModel, EpubError>
    decreases items.len() - from,
{
    if from < 0 || from >= items.len() {
        Ok(e)
    } else {
        match url_joined(base, items[from].href) {
            None => Err(EpubError::InvalidHref),
            Some(url) => place_rest(e.with_resource(items[from], url, false), items, from + 1, base),
        }
    }
}

/// The publication that a package makes, its hrefs resolved against
/// `base`, the URL of the package document.
pub open spec fn assembled(package: PackageModel, base: Seq<char>) -> Result<EpubModel, EpubError> {
    match place_spine(
        EpubModel::blank(package.version, package.metadata),
        package.manifest,
        package.spine.itemrefs,
        0,
        base,
        package.spine.toc,
        cover_id(package.metadata),
    ) {
        Err(e) => Err(e),
        Ok((e, rest)) => place_rest(e, values(rest), 0, base),
    }
}

/// Placing a resource keeps the rules, where the reading order so far is
/// all there is or the resource stays outside of it.
pub proof fn lemma_with_resource(e: EpubModel, item: ResourceModel, url: Seq<char>, in_spine: bool)
    requires
        e.wf(),
        e.resources.len() < usize::MAX,
        in_spine ==> e.spine.len() == e.resources.len(),
    ensures
        e.with_resource(item, url, in_spine).wf(),
{
    let next = e.with_resource(item, url, in_spine);
    assert forall|u: Seq<char>| #[trigger] next.index.contains_key(u) implies {
        &&& next.index[u].0 < next.resources.len()
        &&& next.urls[next.index[u].0 as int] == u
        &&& next.index[u].1 == if next.index[u].0 < next.spine.len() {
            Some(next.index[u].0)
        } else {
            None
        }
    } by {
        if u != url {
            assert(e.index.contains_key(u));
        }
    }
    assert forall|i: int| 0 <= i < next.urls.len() implies next.index.contains_key(
        #[trigger] next.urls[i],
    ) by {
        if i < e.urls.len() {
            assert(e.index.contains_key(e.urls[i]));
        }
    }
}

/// The resources of a publication with their index, as they are
/// gathered and as they are kept.
struct Contents {
    version: Version,
    metadata: Metadata,
    resources: Vec<ResourceItem>,
    urls: Vec<String>,
    spine: Vec<usize>,
    resource_indexes: StringHashMap<ResourceIndex>,
    legacy_toc: Option<usize>,
    legacy_cover: Option<usize>,
}

spec fn places(spine: Vec<usize>) -> Seq<int> {
    Seq::new(spine.len() as nat, |i: int| spine[i] as int)
}

spec fn place_opt(o: Option<usize>) -> Option<int> {
    match o {
        Some(i) => Some(i as int),
        None => None,
    }
}

impl View for Contents {
    type V = EpubModel;

    closed spec fn view(&self) -> EpubModel {
        EpubModel {
            version: self.version,
            metadata: self.metadata.deep_view(),
            resources: self.resources.deep_view(),
            urls: self.urls.deep_view(),
            spine: places(self.spine),
            index: self.resource_indexes@,
            legacy_toc: place_opt(self.legacy_toc),
            legacy_cover: place_opt(self.legacy_cover),
        }
    }
}

impl Contents {
    fn new(version: Version, metadata: Metadata) -> (r: Contents)
        ensures
            r@ == EpubModel::blank(version, metadata.deep_view()),
            r@.wf(),
    {
        let r = Contents {
            version,
            metadata,
            resources: Vec::new(),
            urls: Vec::new(),
            spine: Vec::new(),
            resource_indexes: StringHashMap::new(),
            legacy_toc: None,
            legacy_cover: None,
        };
        assert(r@.resources =~= Seq::empty());
        assert(r@.urls =~= Seq::empty());
        assert(r@.spine =~= Seq::empty());
        r
    }

    /// Puts `item` at the end, to be found under `url`.
    fn place(&mut self, item: ResourceItem, url: String, in_spine: bool) -> (at: usize)
        requires
            old(self)@.wf(),
            in_spine ==> old(self)@.spine.len() == old(self)@.resources.len(),
        ensures
            final(self)@ == old(self)@.with_resource(item@, url@, in_spine),
            final(self)@.wf(),
            at == old(self)@.resources.len(),
            at < final(self)@.resources.len(),
    {
        let at = self.resources.len();
        let place = if in_spine {
            Some(self.spine.len())
        } else {
            None
        };
        self.urls.push(url.clone());
        self.resources.push(item);
        if in_spine {
            self.spine.push(at);
        }
        self.resource_indexes.insert(url, ResourceIndex(at, place));
        proof {
            assert(self.resources.len() == at + 1);
            assert(old(self)@.resources.len() == at);
            let next = old(self)@.with_resource(item@, url@, in_spine);
            assert(self@.resources =~= next.resources);
            assert(self@.urls =~= next.urls);
            assert(self@.spine =~= next.spine);
            assert(self@.index =~= next.index);
            lemma_with_resource(old(self)@, item@, url@, in_spine);
        }
        at
    }
}

fn same_id(id: &Option<Vec<u8>>, idref: &[u8]) -> (r: bool)
    ensures
        r == (bytes_opt(*id) == Some(idref@)),
{
    match id {
        Some(v) => bytes_eq(v.as_slice(), idref),
        None => false,
    }
}

fn find_property(metadata: &Vec<MetadataItem>, property: &str) -> (r: Option<usize>)
    ensures
        match r {
            Some(i) => i < metadata.len() && first_with_property(
                metadata.deep_view(),
                property@,
                0,
            ) == Some(i as int),
            None => first_with_property(metadata.deep_view(), property@, 0) is None,
        },
{
    let mut i: usize = 0;
    while i < metadata.len()
        invariant
            i <= metadata.len(),
            first_with_property(metadata.deep_view(), property@, 0) == first_with_property(
                metadata.deep_view(),
                property@,
                i as int,
            ),
        decreases metadata.len() - i,
    {
        if str_eq(metadata[i].property.as_str(), property) {
            return Some(i);
        }
        i += 1;
    }
    None
}

fn find_token(resources: &Vec<ResourceItem>, property: &str) -> (r: Option<usize>)
    ensures
        match r {
            Some(i) => i < resources.len() && first_with_token(
                resources.deep_view(),
                property@,
                0,
            ) == Some(i as int),
            None => first_with_token(resources.deep_view(), property@, 0) is None,
        },
{
    let mut i: usize = 0;
    while i < resources.len()
        invariant
            i <= resources.len(),
            first_with_token(resources.deep_view(), property@, 0) == first_with_token(
                resources.deep_view(),
                property@,
                i as int,
            ),
        decreases resources.len() - i,
    {
        if resources[i].has(property) {
            return Some(i);
        }
        i += 1;
    }
    None
}

/// A publication, ready to be asked.
pub struct Epub {
    contents: Contents,
}

impl View for Epub {
    type V = EpubModel;

    closed spec fn view(&self) -> EpubModel {
        self.contents@
    }
}

/// The outcome of making a publication, taken by its view.
pub open spec fn epub_outcome(r: Result<Epub, EpubError>) -> Result<EpubModel, EpubError> {
    match r {
        Ok(e) => Ok(e@),
        Err(e) => Err(e),
    }
}

/// A resource that may be there, taken by its view.
pub open spec fn resource_opt(o: Option<&ResourceItem>) -> Option<ResourceModel> {
    match o {
        Some(r) => Some(r@),
        None => None,
    }
}

impl Epub {
    #[verifier::type_invariant]
    spec fn valid(self) -> bool {
        self@.wf()
    }

    /// Makes the publication of a package whose document is at
    /// `package_doc_url`: the resources of the reading order come first,
    /// each taken out of the manifest, and what the manifest still holds
    /// follows.
    pub fn assemble(package: Package, package_doc_url: &url::Url) -> (r: Result<Epub, EpubError>)
        ensures
            epub_outcome(r) == assembled(package@, url_text(*package_doc_url)),
            r matches Ok(e) ==> e@.wf(),
    {
        let ghost base = url_text(*package_doc_url);
        let ghost whole = package@;
        let Package { version, metadata, manifest, spine } = package;
        let mut manifest = manifest;
        let cover: Option<Vec<u8>> = match find_property(&metadata, "cover") {
            Some(i) => Some(copy_bytes(metadata[i].value.as_str().as_bytes())),
            None => None,
        };
        assert(bytes_opt(cover) == cover_id(whole.metadata));
        let mut draft = Contents::new(version, metadata);
        let mut i: usize = 0;
        while i < spine.itemrefs.len()
            invariant
                i <= spine.itemrefs.len(),
                whole == package@,
                draft@.wf(),
                draft@.spine.len() == draft@.resources.len(),
                bytes_opt(cover) == cover_id(whole.metadata),
                spine@ == whole.spine,
                place_spine(
                    EpubModel::blank(whole.version, whole.metadata),
                    whole.manifest,
                    whole.spine.itemrefs,
                    0,
                    base,
                    whole.spine.toc,
                    cover_id(whole.metadata),
                ) == place_spine(
                    draft@,
                    manifest@,
                    whole.spine.itemrefs,
                    i as int,
                    base,
                    whole.spine.toc,
                    cover_id(whole.metadata),
                ),
                base == url_text(*package_doc_url),
            decreases spine.itemrefs.len() - i,
        {
            let idref = &spine.itemrefs[i].idref;
            assert(whole.spine.itemrefs[i as int].idref == idref@);
            let ghost before = manifest@;
            let ghost so_far = draft@;
            let item = match manifest.remove(idref.as_slice()) {
                Some(item) => item,
                None => {
                    assert(place_spine(
                        so_far,
                        before,
                        whole.spine.itemrefs,
                        i as int,
                        base,
                        whole.spine.toc,
                        cover_id(whole.metadata),
                    ) == Err::<(EpubModel, Seq<EntryModel>), EpubError>(
                        EpubError::PackageDoc(Error::Spine),
                    ));
                    return Err(EpubError::PackageDoc(Error::Spine));
                },
            };
            let url = match url_join(package_doc_url, item.href.as_str()) {
                Some(u) => url_str(&u).to_owned(),
                None => {
                    assert(place_spine(
                        so_far,
                        before,
                        whole.spine.itemrefs,
                        i as int,
                        base,
                        whole.spine.toc,
                        cover_id(whole.metadata),
                    ) == Err::<(EpubModel, Seq<EntryModel>), EpubError>(EpubError::InvalidHref));
                    return Err(EpubError::InvalidHref);
                },
            };
            let at = draft.place(item, url, true);
            if same_id(&spine.toc, idref.as_slice()) {
                draft.legacy_toc = Some(at);
            }
            if same_id(&cover, idref.as_slice()) {
                draft.legacy_cover = Some(at);
            }
            i += 1;
        }
        let ghost left = manifest@;
        assert(place_spine(
            draft@,
            left,
            whole.spine.itemrefs,
            i as int,
            base,
            whole.spine.toc,
            cover_id(whole.metadata),
        ) == Ok::<(EpubModel, Seq<EntryModel>), EpubError>((draft@, left)));
        let rest = manifest.into_values();
        let mut k: usize = 0;
        while k < rest.len()
            invariant
                k <= rest.len(),
                whole == package@,
                draft@.wf(),
                rest.deep_view() == values(left),
                place_rest(draft@, values(left), k as int, base) == assembled(whole, base),
                base == url_text(*package_doc_url),
            decreases rest.len() - k,
        {
            let item = rest[k].duplicate();
            assert(values(left)[k as int] == item@);
            assert(rest.deep_view().len() == rest.len());
            let url = match url_join(package_doc_url, item.href.as_str()) {
                Some(u) => url_str(&u).to_owned(),
                None => {
                    assert(place_rest(draft@, values(left), k as int, base) == Err::<
                        EpubModel,
                        EpubError,
                    >(EpubError::InvalidHref));
                    return Err(EpubError::InvalidHref);
                },
            };
            draft.place(item, url, false);
            k += 1;
        }
        Ok(Epub { contents: draft })
    }

    /// The number of resources.
    pub fn resource_count(&self) -> (r: usize)
        ensures
            r == self@.resources.len(),
            self@.wf(),
    {
        proof {
            use_type_invariant(self);
        }
        self.contents.resources.len()
    }

    /// The length of the reading order.
    pub fn spine_len(&self) -> (r: usize)
        ensures
            r == self@.spine.len(),
            self@.wf(),
    {
        proof {
            use_type_invariant(self);
        }
        self.contents.spine.len()
    }

    /// The resources: those of the reading order first.
    pub fn resources(&self) -> (r: &Vec<ResourceItem>)
        ensures
            r.deep_view() == self@.resources,
    {
        &self.contents.resources
    }

    /// For each place of the reading order, the place of its resource
    /// among the resources.
    pub fn spine(&self) -> (r: &Vec<usize>)
        ensures
            r@.len() == self@.spine.len(),
            forall|i: int| 0 <= i < r@.len() ==> r@[i] == self@.spine[i],
    {
        &self.contents.spine
    }

    /// Where `u` leads.
    pub fn locate(&self, u: &url::Url) -> (r: Result<ResourceIndex, UrlNotFoundErr>)
        ensures
            self@.wf(),
            match r {
                Ok(index) => self@.index.contains_key(url_text(*u)) && self@.index[url_text(*u)]
                    == index,
                Err(_) => !self@.index.contains_key(url_text(*u)),
            },
    {
        proof {
            use_type_invariant(self);
        }
        match self.contents.resource_indexes.get(url_str(u)) {
            Some(index) => Ok(*index),
            None => Err(UrlNotFoundErr),
        }
    }

    /// The absolute URL of resource `at`.
    pub fn resource_url(&self, at: usize) -> (r: &str)
        requires
            at < self@.resources.len(),
        ensures
            r@ == self@.urls[at as int],
            self@.wf(),
    {
        proof {
            use_type_invariant(self);
        }
        self.contents.urls[at].as_str()
    }

    /// The resource one step from `current` in the reading order.
    pub fn navigate_from(&self, current: &url::Url, forward: bool) -> (r: Result<
        Option<&ResourceItem>,
        UrlNotFoundErr,
    >)
        ensures
            self@.wf(),
            match r {
                Ok(o) => self@.navigate_from(url_text(*current), forward) == Ok::<
                    Option<ResourceModel>,
                    UrlNotFoundErr,
                >(resource_opt(o)),
                Err(e) => self@.navigate_from(url_text(*current), forward) is Err,
            },
    {
        proof {
            use_type_invariant(self);
        }
        let place = match self.contents.resource_indexes.get(url_str(current)) {
            Some(index) => index.1,
            None => {
                return Err(UrlNotFoundErr);
            },
        };
        let at = match place {
            Some(at) => at,
            None => {
                return Ok(None);
            },
        };
        let next = if forward {
            if at == self.contents.spine.len() - 1 {
                return Ok(None);
            }
            at + 1
        } else {
            if at == 0 {
                return Ok(None);
            }
            at - 1
        };
        let ri = self.contents.spine[next];
        Ok(Some(&self.contents.resources[ri]))
    }

    /// The resource at `dest`, and whether it is in the reading order.
    pub fn navigate_to(&self, dest: &url::Url) -> (r: Result<(&ResourceItem, bool), UrlNotFoundErr>)
        ensures
            self@.wf(),
            match r {
                Ok((item, in_spine)) => self@.navigate_to(url_text(*dest)) == Ok::<
                    (ResourceModel, bool),
                    UrlNotFoundErr,
                >((item@, in_spine)),
                Err(e) => self@.navigate_to(url_text(*dest)) is Err,
            },
    {
        proof {
            use_type_invariant(self);
        }
        match self.contents.resource_indexes.get(url_str(dest)) {
            Some(index) => Ok((&self.contents.resources[index.0], index.1.is_some())),
            None => Err(UrlNotFoundErr),
        }
    }

    /// The resource to open first: the first of the resources, which is
    /// the first of the reading order where that is not empty.
    pub fn navigate_to_start(&self) -> (r: &ResourceItem)
        requires
            self@.resources.len() > 0,
        ensures
            r@ == self@.resources[0],
            self@.spine.len() > 0 ==> r@ == self@.resources[self@.spine[0]],
    {
        proof {
            use_type_invariant(self);
        }
        &self.contents.resources[0]
    }

    /// The metadata section.
    pub fn metadata(&self) -> (r: &Metadata)
        ensures
            r.deep_view() == self@.metadata,
    {
        &self.contents.metadata
    }

    /// The dialect of the package document.
    pub fn version(&self) -> (r: Version)
        ensures
            r == self@.version,
    {
        self.contents.version
    }

    /// The resource at `u`.
    pub fn resource(&self, u: &url::Url) -> (r: Result<&ResourceItem, UrlNotFoundErr>)
        ensures
            self@.wf(),
            match r {
                Ok(item) => self@.resource(url_text(*u)) == Ok::<ResourceModel, UrlNotFoundErr>(
                    item@,
                ),
                Err(e) => self@.resource(url_text(*u)) is Err,
            },
    {
        proof {
            use_type_invariant(self);
        }
        match self.contents.resource_indexes.get(url_str(u)) {
            Some(index) => Ok(&self.contents.resources[index.0]),
            None => Err(UrlNotFoundErr),
        }
    }

    /// The metadata item that holds the title.
    pub fn title(&self) -> (r: Option<&MetadataItem>)
        ensures
            match r {
                Some(item) => self@.title() == Some(item@),
                None => self@.title() is None,
            },
    {
        match find_property(&self.contents.metadata, "title") {
            Some(i) => Some(&self.contents.metadata[i]),
            None => None,
        }
    }

    fn legacy_cover_item(&self) -> (r: Option<&ResourceItem>)
        ensures
            resource_opt(r) == self@.legacy_cover_item(),
    {
        proof {
            use_type_invariant(self);
        }
        match self.contents.legacy_cover {
            Some(i) => Some(&self.contents.resources[i]),
            None => None,
        }
    }

    /// The cover image.
    pub fn cover(&self) -> (r: Option<&ResourceItem>)
        ensures
            resource_opt(r) == self@.cover(),
    {
        if self.contents.version == Version::Epub3_0 {
            match find_token(&self.contents.resources, "cover-image") {
                Some(i) => Some(&self.contents.resources[i]),
                None => self.legacy_cover_item(),
            }
        } else {
            self.legacy_cover_item()
        }
    }

    /// The navigation document.
    pub fn nav(&self) -> (r: Option<&ResourceItem>)
        ensures
            resource_opt(r) == self@.nav(),
    {
        match self.contents.version {
            Version::Epub3_0 => match find_token(&self.contents.resources, "nav") {
                Some(i) => Some(&self.contents.resources[i]),
                None => None,
            },
            Version::Epub2_0 => None,
        }
    }

    /// The NCX resource that the spine names, where it is in the reading
    /// order.
    pub fn legacy_toc(&self) -> (r: Option<&ResourceItem>)
        ensures
            match self@.legacy_toc {
                Some(i) => resource_opt(r) == Some(self@.resources[i]),
                None => r is None,
            },
    {
        proof {
            use_type_invariant(self);
        }
        match self.contents.legacy_toc {
            Some(i) => Some(&self.contents.resources[i]),
            None => None,
        }
    }
}

} // verus!
