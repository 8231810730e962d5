//! The asset repository: the single owning, identity-keyed collection of
//! all assets, with create, fetch, rename, delete and list operations.
//! Lookup scans for the first identifier match; identifiers are drawn at
//! random, so uniqueness is not checked and not needed for these contracts.

use vstd::prelude::*;
use crate::asset::{Asset, Species, spec_fresh_asset};

verus! {

/// Whether some asset in `s` carries the identifier `id`.
pub open spec fn has_id(s: Seq<Asset>, id: u128) -> bool {
    exists|i: int| 0 <= i < s.len() && s[i].id == id
}

/// `i` is the position of the first asset in `s` carrying `id`.
pub open spec fn first_match(s: Seq<Asset>, id: u128, i: int) -> bool {
    &&& 0 <= i < s.len()
    &&& s[i].id == id
    &&& forall|j: int| 0 <= j < i ==> s[j].id != id
}

/// The given asset with its name replaced and every other field kept.
pub open spec fn spec_with_name(a: Asset, name: String) -> Asset {
    Asset { name, ..a }
}

/// The owning store of all assets, in insertion order.
pub struct AssetLibrary {
    pub dir: Vec<Asset>,
}

impl AssetLibrary {
    /// An empty store.
    pub fn new() -> (r: AssetLibrary)
        ensures
            r.dir@ == Seq::<Asset>::empty(),
    {
        AssetLibrary { dir: Vec::new() }
    }

    /// The position of the first asset carrying `id`, if any.
    pub fn get_index(&self, id: u128) -> (r: Option<usize>)
        ensures
            r is Some <==> has_id(self.dir@, id),
            r matches Some(i) ==> first_match(self.dir@, id, i as int),
    {
        let mut i: usize = 0;
        while i < self.dir.len()
            invariant
                i <= self.dir@.len(),
                forall|j: int| 0 <= j < i ==> self.dir@[j].id != id,
            decreases self.dir@.len() - i,
        {
            if self.dir[i].id == id {
                return Some(i);
            }
            i = i + 1;
        }
        None
    }

    /// The first asset carrying `id`, or nothing when no asset does.
    pub fn get_one(&self, id: u128) -> (r: Option<&Asset>)
        ensures
            r is Some <==> has_id(self.dir@, id),
            r matches Some(a) ==> forall|i: int|
                first_match(self.dir@, id, i) ==> *a == self.dir@[i],
    {
        match self.get_index(id) {
            Some(index) => Some(&self.dir[index]),
            None => None,
        }
    }

    /// All assets, in insertion order.
    pub fn get_all(&self) -> (r: &Vec<Asset>)
        ensures
            r@ == self.dir@,
    {
        &self.dir
    }

    /// Overwrites the name of the first asset carrying `id` and returns the
    /// updated record; no other field changes. When no asset carries `id`,
    /// reports that and leaves the store untouched.
    pub fn update_one(&mut self, id: u128, name: String) -> (r: Option<&Asset>)
        ensures
            r is Some <==> has_id(old(self).dir@, id),
            !has_id(old(self).dir@, id) ==> *final(self) == *old(self),
            forall|i: int|
                first_match(old(self).dir@, id, i) ==> final(self).dir@ == old(self).dir@.update(
                    i,
                    spec_with_name(old(self).dir@[i], name),
                ),
            r matches Some(a) ==> forall|i: int|
                first_match(old(self).dir@, id, i) ==> *a == spec_with_name(
                    old(self).dir@[i],
                    name,
                ),
    {
        match self.get_index(id) {
            Some(index) => {
                let mut entry = self.dir.remove(index);
                entry.name = name;
                self.dir.insert(index, entry);
                assert(self.dir@ =~= old(self).dir@.update(
                    index as int,
                    spec_with_name(old(self).dir@[index as int], name),
                ));
                Some(&self.dir[index])
            },
            None => None,
        }
    }

    /// Removes and returns the first asset carrying `id`, compacting the
    /// store and keeping the order of the remaining assets. When no asset
    /// carries `id`, reports that and leaves the store untouched, its size
    /// included.
    pub fn delete_one(&mut self, id: u128) -> (r: Option<Asset>)
        ensures
            r is Some <==> has_id(old(self).dir@, id),
            r is None ==> *final(self) == *old(self),
            forall|i: int|
                first_match(old(self).dir@, id, i) ==> final(self).dir@ == old(self).dir@.remove(i)
                    && r == Some(old(self).dir@[i]),
    {
        match self.get_index(id) {
            Some(index) => {
                let removed_asset = self.dir.remove(index);
                Some(removed_asset)
            },
            None => None,
        }
    }

    /// Constructs a fresh asset of the given name and species, appends it,
    /// and returns the new asset's identifier.
    pub fn create_one(&mut self, name: String, species: Species) -> (r: u128)
        ensures
            final(self).dir@.len() == old(self).dir@.len() + 1,
            final(self).dir@.drop_last() == old(self).dir@,
            spec_fresh_asset(final(self).dir@.last(), name, species),
            final(self).dir@.last().id == r,
    {
        let new_asset = Asset::new(species, name);
        let id = new_asset.id;
        self.dir.push(new_asset);
        assert(self.dir@.drop_last() =~= old(self).dir@);
        id
    }
}

/// Whenever some asset carries the identifier, a first one does: lookups
/// that promise a result for every held identifier single out one position.
pub proof fn lemma_first_match_exists(s: Seq<Asset>, id: u128)
    requires
        has_id(s, id),
    ensures
        exists|i: int| first_match(s, id, i),
    decreases s.len(),
{
    if s[0].id == id {
        assert(first_match(s, id, 0));
    } else {
        let w = choose|i: int| 0 <= i < s.len() && s[i].id == id;
        assert(s.drop_first()[w - 1].id == id);
        lemma_first_match_exists(s.drop_first(), id);
        let i = choose|i: int| first_match(s.drop_first(), id, i);
        assert(s[i + 1].id == id);
        assert forall|j: int| 0 <= j < i + 1 implies s[j].id != id by {
            if j > 0 {
                assert(s.drop_first()[j - 1].id != id);
            }
        }
        assert(first_match(s, id, i + 1));
    }
}

/// An asset appended under an identifier absent from the store is the first
/// match for that identifier: a fetch right after a create finds exactly
/// the created record.
pub proof fn lemma_create_then_find(s: Seq<Asset>, a: Asset)
    requires
        forall|j: int| 0 <= j < s.len() ==> s[j].id != a.id,
    ensures
        has_id(s.push(a), a.id),
        first_match(s.push(a), a.id, s.len() as int),
{
    assert(s.push(a)[s.len() as int] == a);
}

} // verus!
