//! The registry of vaults: one asset container in escrow per lock.

use vstd::prelude::*;
use std::collections::HashMap;
use crate::asset::{AssetContainer, AssetContainerView, LockContents};

verus! {

/// Keeps one asset container for every lock identifier it was given. A
/// container that was emptied stays in the registry, empty.
pub struct VaultRegistry {
    vaults: HashMap<u64, AssetContainer>,
}

impl View for VaultRegistry {
    type V = Map<u64, AssetContainerView>;

    closed spec fn view(&self) -> Map<u64, AssetContainerView> {
        Map::new(|id: u64| self.vaults@.contains_key(id), |id: u64| self.vaults@[id]@)
    }
}

/// The registry `vaults` after everything was taken out of the container of
/// lock `id`; nothing changes if there is no such container.
pub open spec fn vaults_after_take(vaults: Map<u64, AssetContainerView>, id: u64) -> Map<
    u64,
    AssetContainerView,
> {
    if vaults.contains_key(id) {
        vaults.insert(id, vaults[id].emptied())
    } else {
        vaults
    }
}

impl VaultRegistry {
    /// A registry without vaults.
    pub fn new() -> (registry: VaultRegistry)
        ensures
            registry@ == Map::<u64, AssetContainerView>::empty(),
    {
        let registry = VaultRegistry { vaults: HashMap::new() };
        assert(registry@ =~= Map::empty());
        registry
    }

    /// Whether there is a vault for the lock `id`.
    pub fn contains(&self, id: u64) -> (present: bool)
        ensures
            present == self@.contains_key(id),
    {
        broadcast use vstd::std_specs::hash::group_hash_axioms;

        self.vaults.contains_key(&id)
    }

    /// What the vault of lock `id` holds right now, if there is such a vault.
    pub fn contents_of(&self, id: u64) -> (contents: Option<LockContents>)
        ensures
            contents is Some <==> self@.contains_key(id),
            contents matches Some(c) ==> c@ == self@[id].contents,
    {
        broadcast use vstd::std_specs::hash::group_hash_axioms;

        match self.vaults.get(&id) {
            Some(vault) => Some(vault.classify()),
            None => None,
        }
    }

    /// Puts `asset` into a new vault for the lock `id`.
    pub fn insert(&mut self, id: u64, asset: AssetContainer)
        requires
            !old(self)@.contains_key(id),
        ensures
            final(self)@ == old(self)@.insert(id, asset@),
    {
        broadcast use vstd::std_specs::hash::group_hash_axioms;

        self.vaults.insert(id, asset);
        assert(self@ =~= old(self)@.insert(id, asset@));
    }

    /// Takes everything out of the vault of lock `id` and leaves the vault
    /// empty; `None`, and nothing changes, if there is no such vault.
    pub fn take_all(&mut self, id: u64) -> (taken: Option<AssetContainer>)
        ensures
            taken is Some <==> old(self)@.contains_key(id),
            taken matches Some(asset) ==> asset@ == old(self)@[id],
            final(self)@ == vaults_after_take(old(self)@, id),
    {
        broadcast use vstd::std_specs::hash::group_hash_axioms;

        match self.vaults.remove(&id) {
            Some(vault) => {
                let mut vault = vault;
                let asset = vault.take_all();
                self.vaults.insert(id, vault);
                assert(self@ =~= vaults_after_take(old(self)@, id));
                Some(asset)
            },
            None => {
                assert(self@ =~= old(self)@);
                None
            },
        }
    }
}

} // verus!
