//! Lock receipts: the data written on them, the tokens that stand for them,
//! and the issuer that mints the tokens and keeps the data.

use vstd::prelude::*;
use std::collections::HashMap;
use crate::address::ResourceAddress;
use crate::asset::{LockContents, LockContentsView};
use crate::time::Instant;

verus! {

/// The data of a lock receipt. Everything but `unlocked_at` is fixed when the
/// receipt is minted.
#[derive(Debug, PartialEq, Eq)]
pub struct LockReceipt {
    pub name: String,
    pub description: String,
    pub key_image_url: String,
    pub resource: ResourceAddress,
    pub locked_contents: LockContents,
    pub locked_at: Instant,
    pub unlockable_at: Option<Instant>,
    pub unlocked_at: Option<Instant>,
}

/// What a [`LockReceipt`] stands for.
#[verifier::ext_equal]
pub struct LockReceiptView {
    pub name: Seq<char>,
    pub description: Seq<char>,
    pub key_image_url: Seq<char>,
    pub resource: ResourceAddress,
    pub locked_contents: LockContentsView,
    pub locked_at: Instant,
    pub unlockable_at: Option<Instant>,
    pub unlocked_at: Option<Instant>,
}

impl LockReceiptView {
    /// The receipt with its one changeable field set to `unlocked_at`.
    pub open spec fn with_unlocked_at(self, unlocked_at: Option<Instant>) -> LockReceiptView {
        LockReceiptView { unlocked_at, ..self }
    }

    /// Whether `self` and `other` agree in every field that is fixed at mint
    /// time.
    pub open spec fn same_fixed_fields(self, other: LockReceiptView) -> bool {
        self.with_unlocked_at(None) == other.with_unlocked_at(None)
    }
}

impl View for LockReceipt {
    type V = LockReceiptView;

    open spec fn view(&self) -> LockReceiptView {
        LockReceiptView {
            name: self.name@,
            description: self.description@,
            key_image_url: self.key_image_url@,
            resource: self.resource,
            locked_contents: self.locked_contents@,
            locked_at: self.locked_at,
            unlockable_at: self.unlockable_at,
            unlocked_at: self.unlocked_at,
        }
    }
}

impl LockReceipt {
    /// The data of the receipt of a lock made at `locked_at` that has not
    /// been redeemed.
    pub fn new(
        name: String,
        description: String,
        key_image_url: String,
        resource: ResourceAddress,
        locked_contents: LockContents,
        locked_at: Instant,
        unlockable_at: Option<Instant>,
    ) -> (receipt: LockReceipt)
        ensures
            receipt@ == (LockReceiptView {
                name: name@,
                description: description@,
                key_image_url: key_image_url@,
                resource,
                locked_contents: locked_contents@,
                locked_at,
                unlockable_at,
                unlocked_at: None,
            }),
    {
        LockReceipt {
            name,
            description,
            key_image_url,
            resource,
            locked_contents,
            locked_at,
            unlockable_at,
            unlocked_at: None,
        }
    }
}

impl Clone for LockReceipt {
    fn clone(&self) -> (copy: LockReceipt)
        ensures
            copy@ == self@,
    {
        LockReceipt {
            name: self.name.clone(),
            description: self.description.clone(),
            key_image_url: self.key_image_url.clone(),
            resource: self.resource,
            locked_contents: self.locked_contents.clone(),
            locked_at: self.locked_at,
            unlockable_at: self.unlockable_at,
            unlocked_at: self.unlocked_at,
        }
    }
}

/// What a [`ReceiptToken`] stands for: the kind of token it is, and the lock
/// it is bound to.
pub struct ReceiptTokenView {
    pub resource: ResourceAddress,
    pub local_id: u64,
}

/// A receipt token: the claim on one lock. Only a [`ReceiptIssuer`] makes
/// one, and a token cannot be copied.
#[derive(Debug, PartialEq, Eq)]
pub struct ReceiptToken {
    resource: ResourceAddress,
    local_id: u64,
}

impl View for ReceiptToken {
    type V = ReceiptTokenView;

    closed spec fn view(&self) -> ReceiptTokenView {
        ReceiptTokenView { resource: self.resource, local_id: self.local_id }
    }
}

impl ReceiptToken {
    /// The kind of token: the address of the issuer that minted it.
    pub fn resource_address(&self) -> (resource: ResourceAddress)
        ensures
            resource == self@.resource,
    {
        self.resource
    }

    /// The identifier of the lock that the token is bound to.
    pub fn local_id(&self) -> (local_id: u64)
        ensures
            local_id == self@.local_id,
    {
        self.local_id
    }
}

/// The views of a batch of tokens, in order.
pub open spec fn token_views(tokens: Seq<ReceiptToken>) -> Seq<ReceiptTokenView> {
    Seq::new(tokens.len(), |k: int| tokens[k]@)
}

/// The display name of lock receipts.
pub const RECEIPT_NAME: &'static str = "LockReceipt";

/// The display description of lock receipts.
pub const RECEIPT_DESCRIPTION: &'static str = "Don't trust, verify.";

/// What a [`ReceiptIssuer`] stands for.
#[verifier::ext_equal]
pub struct ReceiptIssuerView {
    pub resource: ResourceAddress,
    pub owner_resource: ResourceAddress,
    pub name: Seq<char>,
    pub description: Seq<char>,
    pub info_url: Seq<char>,
    pub icon_url: Seq<char>,
    pub records: Map<u64, LockReceiptView>,
}

impl ReceiptIssuerView {
    /// The issuer after minting a receipt with `data` for the lock `id`.
    pub open spec fn mint(self, id: u64, data: LockReceiptView) -> ReceiptIssuerView {
        ReceiptIssuerView { records: self.records.insert(id, data), ..self }
    }

    /// The issuer after writing `value` into the changeable field of the
    /// receipt of lock `id`; nothing changes if there is no such receipt.
    pub open spec fn update_unlocked_at(self, id: u64, value: Instant) -> ReceiptIssuerView {
        if self.records.contains_key(id) {
            ReceiptIssuerView {
                records: self.records.insert(
                    id,
                    self.records[id].with_unlocked_at(Some(value)),
                ),
                ..self
            }
        } else {
            self
        }
    }
}

/// Mints receipt tokens of one kind and keeps the data of every receipt it
/// has minted, whoever holds the token.
pub struct ReceiptIssuer {
    resource: ResourceAddress,
    owner_resource: ResourceAddress,
    name: String,
    description: String,
    info_url: String,
    icon_url: String,
    records: HashMap<u64, LockReceipt>,
}

impl View for ReceiptIssuer {
    type V = ReceiptIssuerView;

    closed spec fn view(&self) -> ReceiptIssuerView {
        ReceiptIssuerView {
            resource: self.resource,
            owner_resource: self.owner_resource,
            name: self.name@,
            description: self.description@,
            info_url: self.info_url@,
            icon_url: self.icon_url@,
            records: Map::new(
                |id: u64| self.records@.contains_key(id),
                |id: u64| self.records@[id]@,
            ),
        }
    }
}

impl ReceiptIssuer {
    /// An issuer of tokens of the kind `resource` that has minted nothing yet.
    /// `owner_resource` names who may change the display metadata later.
    pub fn new(
        resource: ResourceAddress,
        owner_resource: ResourceAddress,
        info_url: String,
        icon_url: String,
    ) -> (issuer: ReceiptIssuer)
        ensures
            issuer@ == (ReceiptIssuerView {
                resource,
                owner_resource,
                name: RECEIPT_NAME@,
                description: RECEIPT_DESCRIPTION@,
                info_url: info_url@,
                icon_url: icon_url@,
                records: Map::empty(),
            }),
    {
        let issuer = ReceiptIssuer {
            resource,
            owner_resource,
            name: String::from_str(RECEIPT_NAME),
            description: String::from_str(RECEIPT_DESCRIPTION),
            info_url,
            icon_url,
            records: HashMap::new(),
        };
        assert(issuer@.records =~= Map::empty());
        issuer
    }

    /// The kind of token this issuer mints.
    pub fn resource_address(&self) -> (resource: ResourceAddress)
        ensures
            resource == self@.resource,
    {
        self.resource
    }

    /// The resource that names who may change the display metadata.
    pub fn owner_resource(&self) -> (resource: ResourceAddress)
        ensures
            resource == self@.owner_resource,
    {
        self.owner_resource
    }

    /// The display name of the receipts.
    pub fn name(&self) -> (name: &String)
        ensures
            name@ == self@.name,
    {
        &self.name
    }

    /// The display description of the receipts.
    pub fn description(&self) -> (description: &String)
        ensures
            description@ == self@.description,
    {
        &self.description
    }

    /// Where to read more about the receipts.
    pub fn info_url(&self) -> (info_url: &String)
        ensures
            info_url@ == self@.info_url,
    {
        &self.info_url
    }

    /// Where to find the icon of the receipts.
    pub fn icon_url(&self) -> (icon_url: &String)
        ensures
            icon_url@ == self@.icon_url,
    {
        &self.icon_url
    }

    /// Whether a receipt was minted for the lock `id`.
    pub fn has_receipt(&self, id: u64) -> (minted: bool)
        ensures
            minted == self@.records.contains_key(id),
    {
        broadcast use vstd::std_specs::hash::group_hash_axioms;

        self.records.contains_key(&id)
    }

    /// Mints the one receipt token of the lock `id`, with `data` written on it.
    pub fn mint(&mut self, id: u64, data: LockReceipt) -> (token: ReceiptToken)
        requires
            !old(self)@.records.contains_key(id),
        ensures
            token@ == (ReceiptTokenView { resource: old(self)@.resource, local_id: id }),
            final(self)@ == old(self)@.mint(id, data@),
    {
        broadcast use vstd::std_specs::hash::group_hash_axioms;

        self.records.insert(id, data);
        assert(self@.records =~= old(self)@.records.insert(id, data@));
        ReceiptToken { resource: self.resource, local_id: id }
    }

    /// Writes `value` into the one changeable field of the receipt of lock
    /// `id`, whoever holds its token. Says whether there is such a receipt.
    pub fn update_unlocked_at(&mut self, id: u64, value: Instant) -> (updated: bool)
        ensures
            updated == old(self)@.records.contains_key(id),
            final(self)@ == old(self)@.update_unlocked_at(id, value),
    {
        broadcast use vstd::std_specs::hash::group_hash_axioms;

        match self.records.remove(&id) {
            Some(data) => {
                let LockReceipt {
                    name,
                    description,
                    key_image_url,
                    resource,
                    locked_contents,
                    locked_at,
                    unlockable_at,
                    unlocked_at: _,
                } = data;
                let updated = LockReceipt {
                    name,
                    description,
                    key_image_url,
                    resource,
                    locked_contents,
                    locked_at,
                    unlockable_at,
                    unlocked_at: Some(value),
                };
                self.records.insert(id, updated);
                assert(self@.records =~= old(self)@.update_unlocked_at(id, value).records);
                true
            },
            None => {
                assert(self@.records =~= old(self)@.records);
                false
            },
        }
    }

    /// The data of the receipt of lock `id`, if one was minted.
    pub fn data_of(&self, id: u64) -> (data: Option<LockReceipt>)
        ensures
            data is Some <==> self@.records.contains_key(id),
            data matches Some(d) ==> d@ == self@.records[id],
    {
        broadcast use vstd::std_specs::hash::group_hash_axioms;

        match self.records.get(&id) {
            Some(data) => Some(data.clone()),
            None => None,
        }
    }

    /// Whether `token` is of the kind this issuer mints.
    pub fn is_own(&self, token: &ReceiptToken) -> (own: bool)
        ensures
            own == (token@.resource == self@.resource),
    {
        token.resource == self.resource
    }

    /// The data written on `token`: `None` if the token is of another kind or
    /// this issuer minted no receipt for its lock.
    pub fn read_data(&self, token: &ReceiptToken) -> (data: Option<LockReceipt>)
        ensures
            data is Some <==> token@.resource == self@.resource && self@.records.contains_key(
                token@.local_id,
            ),
            data matches Some(d) ==> d@ == self@.records[token@.local_id],
    {
        if self.is_own(token) {
            self.data_of(token.local_id)
        } else {
            None
        }
    }

    /// The identifier of the lock that `token` is bound to.
    pub fn identifier_of(token: &ReceiptToken) -> (id: u64)
        ensures
            id == token@.local_id,
    {
        token.local_id
    }
}

} // verus!
