//! What holds of every publication, proved from the definitions.

use vstd::prelude::*;

use crate::address::url_joined;
use crate::epub::{
    alone_at,
    assembled,
    cover_id,
    lemma_with_resource,
    place_rest,
    place_spine,
    EpubModel,
};
use crate::error::{EpubError, UrlNotFoundErr};
use crate::manifest::{
    distinct_ids,
    lemma_lookup,
    lemma_removed,
    lookup,
    removed,
    values,
    EntryModel,
};
use crate::archive::ArchiveModel;
use crate::open::{package_in, package_url_of, publication_in, OpenError};
use crate::package::{Error, ItemrefModel, PackageModel, ResourceModel};

verus! {

proof fn lemma_place_spine(
    e: EpubModel,
    manifest: Seq<EntryModel>,
    itemrefs: Seq<ItemrefModel>,
    from: int,
    base: Seq<char>,
    toc: Option<Seq<u8>>,
    cover: Option<Seq<u8>>,
)
    requires
        0 <= from <= itemrefs.len(),
        e.spine.len() == from,
        e.resources.len() == from,
        forall|i: int| 0 <= i < from ==> #[trigger] e.spine[i] == i,
        distinct_ids(manifest),
        place_spine(e, manifest, itemrefs, from, base, toc, cover) is Ok,
    ensures
        ({
            let (placed, rest) = place_spine(e, manifest, itemrefs, from, base, toc, cover)->Ok_0;
            &&& placed.spine.len() == itemrefs.len()
            &&& placed.resources.len() == itemrefs.len()
            &&& placed.version == e.version
            &&& placed.metadata == e.metadata
            &&& forall|i: int| 0 <= i < itemrefs.len() ==> #[trigger] placed.spine[i] == i
            &&& forall|i: int| 0 <= i < from ==> #[trigger] placed.resources[i] == e.resources[i]
            &&& forall|i: int|
                from <= i < itemrefs.len() ==> lookup(manifest, (#[trigger] itemrefs[i]).idref)
                    == Some(placed.resources[i])
            &&& distinct_ids(rest)
            &&& rest.len() + itemrefs.len() == manifest.len() + from
        }),
    decreases itemrefs.len() - from,
{
    if from < itemrefs.len() {
        let idref = itemrefs[from].idref;
        let item = lookup(manifest, idref)->0;
        let url = url_joined(base, item.href)->0;
        let at = e.resources.len() as int;
        let placed = e.with_resource(item, url, true);
        let marked = EpubModel {
            legacy_toc: if toc == Some(idref) {
                Some(at)
            } else {
                placed.legacy_toc
            },
            legacy_cover: if cover == Some(idref) {
                Some(at)
            } else {
                placed.legacy_cover
            },
            ..placed
        };
        let left = removed(manifest, idref);
        lemma_removed(manifest, idref, idref);
        lemma_place_spine(marked, left, itemrefs, from + 1, base, toc, cover);
        let (last, rest) = place_spine(marked, left, itemrefs, from + 1, base, toc, cover)->Ok_0;
        assert(last.resources[from] == marked.resources[from]);
        assert forall|i: int| from <= i < itemrefs.len() implies lookup(
            manifest,
            (#[trigger] itemrefs[i]).idref,
        ) == Some(last.resources[i]) by {
            if i > from {
                lemma_removed(manifest, idref, itemrefs[i].idref);
            }
        }
    }
}

proof fn lemma_place_rest(e: EpubModel, items: Seq<ResourceModel>, from: int, base: Seq<char>)
    requires
        0 <= from,
        place_rest(e, items, from, base) is Ok,
    ensures
        ({
            let placed = place_rest(e, items, from, base)->Ok_0;
            &&& placed.spine == e.spine
            &&& placed.version == e.version
            &&& placed.metadata == e.metadata
            &&& placed.resources.len() >= e.resources.len()
            &&& from <= items.len() ==> placed.resources.len() == e.resources.len() + items.len()
                - from
            &&& forall|i: int|
                0 <= i < e.resources.len() ==> #[trigger] placed.resources[i] == e.resources[i]
        }),
    decreases items.len() - from,
{
    if from < items.len() {
        let url = url_joined(base, items[from].href)->0;
        lemma_place_rest(e.with_resource(items[from], url, false), items, from + 1, base);
    }
}

proof fn lemma_place_spine_missing(
    e: EpubModel,
    manifest: Seq<EntryModel>,
    itemrefs: Seq<ItemrefModel>,
    from: int,
    base: Seq<char>,
    toc: Option<Seq<u8>>,
    cover: Option<Seq<u8>>,
    k: int,
)
    requires
        0 <= from <= k < itemrefs.len(),
        lookup(manifest, itemrefs[k].idref) is None,
    ensures
        place_spine(e, manifest, itemrefs, from, base, toc, cover) is Err,
        (forall|i: int|
            0 <= i < manifest.len() ==> url_joined(base, (#[trigger] manifest[i]).item.href)
                is Some) ==> place_spine(e, manifest, itemrefs, from, base, toc, cover) == Err::<
            (EpubModel, Seq<EntryModel>),
            EpubError,
        >(EpubError::PackageDoc(Error::Spine)),
    decreases itemrefs.len() - from,
{
    let idref = itemrefs[from].idref;
    lemma_lookup(manifest, idref);
    match lookup(manifest, idref) {
        None => {},
        Some(item) => {
            match url_joined(base, item.href) {
                None => {},
                Some(url) => {
                    let at = e.resources.len() as int;
                    let placed = e.with_resource(item, url, true);
                    let marked = EpubModel {
                        legacy_toc: if toc == Some(idref) {
                            Some(at)
                        } else {
                            placed.legacy_toc
                        },
                        legacy_cover: if cover == Some(idref) {
                            Some(at)
                        } else {
                            placed.legacy_cover
                        },
                        ..placed
                    };
                    let left = removed(manifest, idref);
                    lemma_removed(manifest, idref, itemrefs[k].idref);
                    lemma_place_spine_missing(marked, left, itemrefs, from + 1, base, toc, cover, k);
                },
            }
        },
    }
}

proof fn lemma_place_spine_wf(
    e: EpubModel,
    manifest: Seq<EntryModel>,
    itemrefs: Seq<ItemrefModel>,
    from: int,
    base: Seq<char>,
    toc: Option<Seq<u8>>,
    cover: Option<Seq<u8>>,
)
    requires
        0 <= from <= itemrefs.len() <= usize::MAX,
        e.wf(),
        e.spine.len() == from,
        e.resources.len() == from,
        place_spine(e, manifest, itemrefs, from, base, toc, cover) is Ok,
    ensures
        place_spine(e, manifest, itemrefs, from, base, toc, cover)->Ok_0.0.wf(),
    decreases itemrefs.len() - from,
{
    if from < itemrefs.len() {
        let idref = itemrefs[from].idref;
        let item = lookup(manifest, idref)->0;
        let url = url_joined(base, item.href)->0;
        let at = e.resources.len() as int;
        let placed = e.with_resource(item, url, true);
        lemma_with_resource(e, item, url, true);
        let marked = EpubModel {
            legacy_toc: if toc == Some(idref) {
                Some(at)
            } else {
                placed.legacy_toc
            },
            legacy_cover: if cover == Some(idref) {
                Some(at)
            } else {
                placed.legacy_cover
            },
            ..placed
        };
        lemma_place_spine_wf(
            marked,
            removed(manifest, idref),
            itemrefs,
            from + 1,
            base,
            toc,
            cover,
        );
    }
}

proof fn lemma_place_rest_wf(e: EpubModel, items: Seq<ResourceModel>, from: int, base: Seq<char>)
    requires
        0 <= from <= items.len(),
        e.wf(),
        e.resources.len() + items.len() - from <= usize::MAX,
        place_rest(e, items, from, base) is Ok,
    ensures
        place_rest(e, items, from, base)->Ok_0.wf(),
    decreases items.len() - from,
{
    if from < items.len() {
        let url = url_joined(base, items[from].href)->0;
        lemma_with_resource(e, items[from], url, false);
        lemma_place_rest_wf(e.with_resource(items[from], url, false), items, from + 1, base);
    }
}

/// What a package is made into keeps the rules of a publication,
/// provided the manifest declares no id twice and no more resources
/// than a machine can count.
pub proof fn law_assembled_keeps_the_rules(package: PackageModel, base: Seq<char>)
    requires
        distinct_ids(package.manifest),
        package.manifest.len() <= usize::MAX,
        assembled(package, base) is Ok,
    ensures
        assembled(package, base)->Ok_0.wf(),
{
    let blank = EpubModel::blank(package.version, package.metadata);
    let itemrefs = package.spine.itemrefs;
    let toc = package.spine.toc;
    let cover = cover_id(package.metadata);
    lemma_place_spine(blank, package.manifest, itemrefs, 0, base, toc, cover);
    lemma_place_spine_wf(blank, package.manifest, itemrefs, 0, base, toc, cover);
    let (placed, rest) = place_spine(blank, package.manifest, itemrefs, 0, base, toc, cover)->Ok_0;
    lemma_place_rest_wf(placed, values(rest), 0, base);
}

/// The reading order of a publication is that of its package: where a
/// package is made into a publication, the publication's reading order
/// is as long as the spine, and the resource at each of its places is
/// the one that the manifest holds under the id of the itemref at that
/// place.
pub proof fn law_reading_order(package: PackageModel, base: Seq<char>)
    requires
        distinct_ids(package.manifest),
        assembled(package, base) is Ok,
    ensures
        ({
            let e = assembled(package, base)->Ok_0;
            &&& e.spine.len() == package.spine.itemrefs.len()
            &&& e.version == package.version
            &&& e.metadata == package.metadata
            &&& forall|i: int|
                0 <= i < e.spine.len() ==> 0 <= #[trigger] e.spine[i] < e.resources.len()
                    && lookup(package.manifest, package.spine.itemrefs[i].idref) == Some(
                    e.resources[e.spine[i]],
                )
        }),
{
    let blank = EpubModel::blank(package.version, package.metadata);
    let itemrefs = package.spine.itemrefs;
    let toc = package.spine.toc;
    let cover = cover_id(package.metadata);
    lemma_place_spine(blank, package.manifest, itemrefs, 0, base, toc, cover);
    let (placed, rest) = place_spine(blank, package.manifest, itemrefs, 0, base, toc, cover)->Ok_0;
    lemma_place_rest(placed, values(rest), 0, base);
    let e = assembled(package, base)->Ok_0;
    assert forall|i: int| 0 <= i < e.spine.len() implies 0 <= #[trigger] e.spine[i]
        < e.resources.len() && lookup(package.manifest, package.spine.itemrefs[i].idref) == Some(
        e.resources[e.spine[i]],
    ) by {
        assert(placed.spine[i] == i);
        assert(e.resources[i] == placed.resources[i]);
    }
}

/// Every resource of the manifest is placed once: the publication that
/// a package makes has as many resources as the manifest declares.
pub proof fn law_every_resource_once(package: PackageModel, base: Seq<char>)
    requires
        distinct_ids(package.manifest),
        assembled(package, base) is Ok,
    ensures
        assembled(package, base)->Ok_0.resources.len() == package.manifest.len(),
{
    let blank = EpubModel::blank(package.version, package.metadata);
    let itemrefs = package.spine.itemrefs;
    let toc = package.spine.toc;
    let cover = cover_id(package.metadata);
    lemma_place_spine(blank, package.manifest, itemrefs, 0, base, toc, cover);
    let (placed, rest) = place_spine(blank, package.manifest, itemrefs, 0, base, toc, cover)->Ok_0;
    lemma_place_rest(placed, values(rest), 0, base);
}

/// A spine that names what the manifest does not hold makes no
/// publication: where the id of some itemref is not in the manifest,
/// making the publication fails. The error is that of the spine unless
/// an `href` that does not resolve is met first, which cannot be where
/// every `href` of the manifest resolves.
pub proof fn law_missing_idref(package: PackageModel, base: Seq<char>, k: int)
    requires
        0 <= k < package.spine.itemrefs.len(),
        lookup(package.manifest, package.spine.itemrefs[k].idref) is None,
    ensures
        assembled(package, base) is Err,
        (forall|i: int|
            0 <= i < package.manifest.len() ==> url_joined(
                base,
                (#[trigger] package.manifest[i]).item.href,
            ) is Some) ==> assembled(package, base) == Err::<EpubModel, EpubError>(
            EpubError::PackageDoc(Error::Spine),
        ),
{
    lemma_place_spine_missing(
        EpubModel::blank(package.version, package.metadata),
        package.manifest,
        package.spine.itemrefs,
        0,
        base,
        package.spine.toc,
        cover_id(package.metadata),
        k,
    );
}

/// An archive whose spine names what its manifest does not hold is not
/// opened: where the package document of an archive is read and the id
/// of some itemref is not in its manifest, no publication is made of
/// the archive, and the error is that of the spine where every `href`
/// of the manifest resolves.
pub proof fn law_archive_with_missing_idref(
    archive: ArchiveModel,
    base: Seq<char>,
    url: Seq<char>,
    package: PackageModel,
    k: int,
)
    requires
        package_url_of(archive, base) == Ok::<Seq<char>, OpenError>(url),
        package_in(archive, url) == Ok::<PackageModel, OpenError>(package),
        0 <= k < package.spine.itemrefs.len(),
        lookup(package.manifest, package.spine.itemrefs[k].idref) is None,
    ensures
        publication_in(archive, base) is Err,
        (forall|i: int|
            0 <= i < package.manifest.len() ==> url_joined(
                url,
                (#[trigger] package.manifest[i]).item.href,
            ) is Some) ==> publication_in(archive, base) == Err::<EpubModel, OpenError>(
            OpenError::Epub(EpubError::PackageDoc(Error::Spine)),
        ),
{
    law_missing_idref(package, url, k);
}

/// No step leads off the ends of the reading order, and none starts
/// from an unknown URL: a step back from the first resource and a step
/// forward from the last arrive nowhere, and a step from a URL that no
/// resource has is an error. The first and the last are taken by their
/// URLs, so each must be the only resource at its URL.
pub proof fn law_ends_of_reading_order(e: EpubModel, unknown: Seq<char>, forward: bool)
    requires
        e.wf(),
        e.spine.len() > 0,
        !e.index.contains_key(unknown),
    ensures
        alone_at(e.urls, 0) ==> e.navigate_from(e.urls[0], false) == Ok::<
            Option<ResourceModel>,
            UrlNotFoundErr,
        >(None),
        alone_at(e.urls, e.spine.len() - 1) ==> e.navigate_from(
            e.urls[e.spine.len() - 1],
            true,
        ) == Ok::<Option<ResourceModel>, UrlNotFoundErr>(None),
        e.navigate_from(unknown, forward) == Err::<Option<ResourceModel>, UrlNotFoundErr>(
            UrlNotFoundErr,
        ),
{
    let first = e.urls[0];
    assert(e.index.contains_key(first));
    let last = e.urls[e.spine.len() - 1];
    assert(e.index.contains_key(last));
}

/// A resource outside the reading order is arrived at and said to be
/// outside: going to the URL of a resource that stands after the
/// reading order, and is the only one at its URL, gives that resource
/// and `false`; going to a URL that no resource has is an error.
pub proof fn law_outside_reading_order(e: EpubModel, at: int, unknown: Seq<char>)
    requires
        e.wf(),
        e.spine.len() <= at < e.resources.len(),
        alone_at(e.urls, at),
        !e.index.contains_key(unknown),
    ensures
        e.navigate_to(e.urls[at]) == Ok::<(ResourceModel, bool), UrlNotFoundErr>(
            (e.resources[at], false),
        ),
        e.navigate_to(unknown) == Err::<(ResourceModel, bool), UrlNotFoundErr>(UrlNotFoundErr),
{
    assert(e.index.contains_key(e.urls[at]));
}

/// A URL of the index leads to a resource at that URL: for every URL
/// that the index knows, the resource found under it is one of the
/// resources, and its own URL is the URL asked for.
pub proof fn law_resource_at_its_url(e: EpubModel, url: Seq<char>)
    requires
        e.wf(),
        e.index.contains_key(url),
    ensures
        0 <= e.index[url].0 < e.resources.len(),
        e.urls[e.index[url].0 as int] == url,
        e.resource(url) == Ok::<ResourceModel, UrlNotFoundErr>(
            e.resources[e.index[url].0 as int],
        ),
{
}

/// Where no two resources share a URL, the index is one to one: the URL
/// of each resource leads to that resource, as every URL of the index
/// leads to a resource at it.
pub proof fn law_index_one_to_one(e: EpubModel, at: int)
    requires
        e.wf(),
        0 <= at < e.resources.len(),
        alone_at(e.urls, at),
    ensures
        e.index.contains_key(e.urls[at]),
        e.index[e.urls[at]].0 == at,
        e.index[e.urls[at]].1 == if at < e.spine.len() {
            Some(at as usize)
        } else {
            None
        },
{
    assert(e.index.contains_key(e.urls[at]));
}

} // verus!
