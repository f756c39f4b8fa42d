//! The manifest: the resources a package declares, each under its id.

use vstd::prelude::*;

use crate::package::{Id, ResourceItem, ResourceModel};
use crate::text::bytes_eq;

verus! {

/// One declared resource with its id.
pub struct EntryModel {
    pub id: Seq<u8>,
    pub item: ResourceModel,
}

/// No id occurs twice.
pub open spec fn distinct_ids(entries: Seq<EntryModel>) -> bool {
    forall|i: int, j: int| 0 <= i < j < entries.len() ==> entries[i].id != entries[j].id
}

/// The place of the first entry at or after `from` whose id is `id`.
pub open spec fn position_from(entries: Seq<EntryModel>, id: Seq<u8>, from: int) -> Option<int>
    decreases entries.len() - from,
{
    if from < 0 || from >= entries.len() {
        None
    } else if entries[from].id == id {
        Some(from)
    } else {
        position_from(entries, id, from + 1)
    }
}

/// The place of the entry whose id is `id`.
pub open spec fn position(entries: Seq<EntryModel>, id: Seq<u8>) -> Option<int> {
    position_from(entries, id, 0)
}

/// The resource declared under `id`.
pub open spec fn lookup(entries: Seq<EntryModel>, id: Seq<u8>) -> Option<ResourceModel> {
    match position(entries, id) {
        Some(i) => Some(entries[i].item),
        None => None,
    }
}

/// The entries after `item` is declared under `id`: it takes the place of
/// the resource that had the id before, or comes last.
pub open spec fn inserted(entries: Seq<EntryModel>, id: Seq<u8>, item: ResourceModel) -> Seq<
    EntryModel,
> {
    match position(entries, id) {
        Some(i) => entries.update(i, EntryModel { id, item }),
        None => entries.push(EntryModel { id, item }),
    }
}

/// The entries without the one whose id is `id`.
pub open spec fn removed(entries: Seq<EntryModel>, id: Seq<u8>) -> Seq<EntryModel> {
    match position(entries, id) {
        Some(i) => entries.remove(i),
        None => entries,
    }
}

/// The resources of the entries, in their order.
pub open spec fn values(entries: Seq<EntryModel>) -> Seq<ResourceModel> {
    Seq::new(entries.len(), |i: int| entries[i].item)
}

/// What `position_from` finds is the first entry with the id, and it
/// finds nothing only where no entry has it.
pub proof fn lemma_position_from(entries: Seq<EntryModel>, id: Seq<u8>, from: int)
    requires
        0 <= from,
    ensures
        match position_from(entries, id, from) {
            Some(i) => from <= i < entries.len() && entries[i].id == id && forall|k: int|
                from <= k < i ==> entries[k].id != id,
            None => forall|k: int| from <= k < entries.len() ==> entries[k].id != id,
        },
    decreases entries.len() - from,
{
    if from < entries.len() && entries[from].id != id {
        lemma_position_from(entries, id, from + 1);
    }
}

/// A lookup finds an entry of the manifest, and finds nothing only where
/// no entry has the id.
pub proof fn lemma_lookup(entries: Seq<EntryModel>, id: Seq<u8>)
    ensures
        match lookup(entries, id) {
            Some(item) => exists|i: int|
                0 <= i < entries.len() && (#[trigger] entries[i]).id == id && entries[i].item
                    == item,
            None => forall|i: int| 0 <= i < entries.len() ==> (#[trigger] entries[i]).id != id,
        },
{
    lemma_position_from(entries, id, 0);
}

/// Taking one id out leaves every other id as it was declared, brings
/// no entry in, and, where no id occurs twice, leaves nothing under the
/// id that was taken.
pub proof fn lemma_removed(entries: Seq<EntryModel>, id: Seq<u8>, other: Seq<u8>)
    ensures
        other != id ==> lookup(removed(entries, id), other) == lookup(entries, other),
        lookup(entries, other) is None ==> lookup(removed(entries, id), other) is None,
        distinct_ids(entries) ==> distinct_ids(removed(entries, id)),
        distinct_ids(entries) ==> lookup(removed(entries, id), id) is None,
        removed(entries, id).len() + (if lookup(entries, id) is Some {
            1int
        } else {
            0int
        }) == entries.len(),
        forall|j: int|
            0 <= j < removed(entries, id).len() ==> exists|i: int|
                0 <= i < entries.len() && #[trigger] entries[i] == (#[trigger] removed(
                    entries,
                    id,
                )[j]),
{
    let rest = removed(entries, id);
    lemma_position_from(entries, id, 0);
    lemma_position_from(entries, other, 0);
    lemma_position_from(rest, other, 0);
    lemma_position_from(rest, id, 0);
    match position(entries, id) {
        None => {},
        Some(p) => {
            assert(rest == entries.remove(p));
            assert forall|j: int| 0 <= j < rest.len() implies rest[j] == entries[if j < p {
                j
            } else {
                j + 1
            }] by {}
            assert forall|j: int| 0 <= j < rest.len() implies exists|i: int|
                0 <= i < entries.len() && #[trigger] entries[i] == (#[trigger] rest[j]) by {
                let i = if j < p {
                    j
                } else {
                    j + 1
                };
                assert(entries[i] == rest[j]);
            }
            if other != id {
                match position(entries, other) {
                    None => {
                        match position(rest, other) {
                            None => {},
                            Some(j) => {
                                assert(rest[j] == entries[if j < p {
                                    j
                                } else {
                                    j + 1
                                }]);
                            },
                        }
                    },
                    Some(q) => {
                        let q2 = if q < p {
                            q
                        } else {
                            q - 1
                        };
                        assert(rest[q2] == entries[q]);
                        match position(rest, other) {
                            None => {
                                assert(rest[q2].id == other);
                            },
                            Some(j) => {
                                let j2 = if j < p {
                                    j
                                } else {
                                    j + 1
                                };
                                assert(rest[j] == entries[j2]);
                                if j < q2 {
                                    assert(entries[j2].id != other);
                                }
                                if q2 < j {
                                    assert(rest[q2].id != other);
                                }
                            },
                        }
                    },
                }
            }
            if distinct_ids(entries) {
                assert forall|a: int, b: int| 0 <= a < b < rest.len() implies rest[a].id
                    != rest[b].id by {
                    let a2 = if a < p {
                        a
                    } else {
                        a + 1
                    };
                    let b2 = if b < p {
                        b
                    } else {
                        b + 1
                    };
                    assert(rest[a] == entries[a2]);
                    assert(rest[b] == entries[b2]);
                }
                match position(rest, id) {
                    None => {},
                    Some(j) => {
                        let j2 = if j < p {
                            j
                        } else {
                            j + 1
                        };
                        assert(rest[j] == entries[j2]);
                        assert(entries[j2].id == entries[p].id);
                    },
                }
            }
            if lookup(entries, other) is None {
                match position(rest, other) {
                    None => {},
                    Some(j) => {
                        let j2 = if j < p {
                            j
                        } else {
                            j + 1
                        };
                        assert(rest[j] == entries[j2]);
                    },
                }
            }
        },
    }
}

/// A resource with the id it is declared under.
#[derive(Debug)]
pub struct ManifestEntry {
    pub id: Id,
    pub item: ResourceItem,
}

impl View for ManifestEntry {
    type V = EntryModel;

    open spec fn view(&self) -> EntryModel {
        EntryModel { id: self.id@, item: self.item@ }
    }
}

impl DeepView for ManifestEntry {
    type V = EntryModel;

    open spec fn deep_view(&self) -> EntryModel {
        self@
    }
}

/// The resources of a package, each under its id, in the order in which
/// the ids were first declared.
#[derive(Debug)]
pub struct Manifest {
    entries: Vec<ManifestEntry>,
}

impl View for Manifest {
    type V = Seq<EntryModel>;

    closed spec fn view(&self) -> Seq<EntryModel> {
        self.entries.deep_view()
    }
}

impl Manifest {
    /// A manifest that declares nothing.
    pub fn new() -> (r: Manifest)
        ensures
            r@ == Seq::<EntryModel>::empty(),
    {
        let r = Manifest { entries: Vec::new() };
        assert(r@ =~= Seq::<EntryModel>::empty());
        r
    }

    /// The number of resources.
    pub fn len(&self) -> (r: usize)
        ensures
            r == self@.len(),
    {
        self.entries.len()
    }

    fn find(&self, id: &[u8]) -> (r: Option<usize>)
        ensures
            match r {
                Some(i) => position(self@, id@) == Some(i as int) && i < self.entries.len(),
                None => position(self@, id@) is None,
            },
    {
        let mut i: usize = 0;
        while i < self.entries.len()
            invariant
                i <= self.entries.len(),
                position(self@, id@) == position_from(self@, id@, i as int),
            decreases self.entries.len() - i,
        {
            if bytes_eq(self.entries[i].id.as_slice(), id) {
                return Some(i);
            }
            i += 1;
        }
        None
    }

    /// The resource declared under `id`.
    pub fn get(&self, id: &[u8]) -> (r: Option<&ResourceItem>)
        ensures
            match r {
                Some(item) => lookup(self@, id@) == Some(item@),
                None => lookup(self@, id@) is None,
            },
    {
        match self.find(id) {
            Some(i) => Some(&self.entries[i].item),
            None => None,
        }
    }

    /// Declares `item` under `id`, in place of what the id named before.
    pub fn insert(&mut self, id: Id, item: ResourceItem)
        ensures
            final(self)@ == inserted(old(self)@, id@, item@),
            distinct_ids(old(self)@) ==> distinct_ids(final(self)@),
    {
        proof {
            lemma_position_from(self@, id@, 0);
        }
        match self.find(id.as_slice()) {
            Some(i) => {
                self.entries[i].item = item;
                assert(self@ =~= inserted(old(self)@, id@, item@));
            },
            None => {
                self.entries.push(ManifestEntry { id, item });
                assert(self@ =~= inserted(old(self)@, id@, item@));
            },
        }
    }

    /// Takes out the resource declared under `id`.
    pub fn remove(&mut self, id: &[u8]) -> (r: Option<ResourceItem>)
        ensures
            final(self)@ == removed(old(self)@, id@),
            distinct_ids(old(self)@) ==> distinct_ids(final(self)@),
            match r {
                Some(item) => lookup(old(self)@, id@) == Some(item@),
                None => lookup(old(self)@, id@) is None,
            },
    {
        match self.find(id) {
            Some(i) => {
                let entry = self.entries.remove(i);
                assert(self@ =~= removed(old(self)@, id@));
                Some(entry.item)
            },
            None => None,
        }
    }

    /// The resources, in the order of the manifest.
    pub fn into_values(self) -> (r: Vec<ResourceItem>)
        ensures
            r.deep_view() == values(self@),
    {
        let mut entries = self.entries;
        let mut reversed: Vec<ResourceItem> = Vec::new();
        let ghost all = entries.deep_view();
        while entries.len() > 0
            invariant
                entries.deep_view() == all.take(entries.len() as int),
                reversed.len() + entries.len() == all.len(),
                forall|k: int|
                    0 <= k < reversed.len() ==> (#[trigger] reversed[k])@ == all[all.len() - 1
                        - k].item,
            decreases entries.len(),
        {
            let ghost before = entries.deep_view();
            match entries.pop() {
                Some(entry) => {
                    assert(entry@ == before[before.len() - 1]);
                    reversed.push(entry.item);
                    assert(entries.deep_view() =~= all.take(entries.len() as int));
                },
                None => {},
            }
        }
        let mut out: Vec<ResourceItem> = Vec::new();
        while reversed.len() > 0
            invariant
                out.len() + reversed.len() == all.len(),
                forall|k: int|
                    0 <= k < reversed.len() ==> (#[trigger] reversed[k])@ == all[all.len() - 1
                        - k].item,
                forall|k: int| 0 <= k < out.len() ==> (#[trigger] out[k])@ == all[k].item,
            decreases reversed.len(),
        {
            match reversed.pop() {
                Some(item) => {
                    out.push(item);
                },
                None => {},
            }
        }
        assert(out.deep_view() =~= values(all));
        out
    }
}

} // verus!
