//! Asset containers and the description of what they hold.

use vstd::prelude::*;
use crate::address::ResourceAddress;
use crate::amount::Decimal;

verus! {

/// The contents of a lock: an amount of a fungible asset, or the identifiers
/// of the non-fungible units held.
#[derive(Debug, PartialEq, Eq)]
pub enum LockContents {
    Fungible(Decimal),
    NonFungible(Vec<String>),
}

/// What a [`LockContents`] value stands for.
#[verifier::ext_equal]
pub enum LockContentsView {
    Fungible(Decimal),
    NonFungible(Seq<Seq<char>>),
}

/// The texts of a sequence of strings.
pub open spec fn texts(strings: Seq<String>) -> Seq<Seq<char>> {
    Seq::new(strings.len(), |k: int| strings[k]@)
}

impl LockContentsView {
    /// Whether nothing is held.
    pub open spec fn is_empty(self) -> bool {
        match self {
            LockContentsView::Fungible(amount) => amount.attos() == 0,
            LockContentsView::NonFungible(units) => units.len() == 0,
        }
    }

    /// The same kind of contents with nothing held.
    pub open spec fn emptied(self) -> LockContentsView {
        match self {
            LockContentsView::Fungible(_) => LockContentsView::Fungible(
                Decimal { attos_high: 0, attos_low: 0 },
            ),
            LockContentsView::NonFungible(_) => LockContentsView::NonFungible(Seq::empty()),
        }
    }

    /// Whether no unit is named twice.
    pub open spec fn units_distinct(self) -> bool {
        match self {
            LockContentsView::Fungible(_) => true,
            LockContentsView::NonFungible(units) => units.no_duplicates(),
        }
    }
}

impl View for LockContents {
    type V = LockContentsView;

    open spec fn view(&self) -> LockContentsView {
        match self {
            LockContents::Fungible(amount) => LockContentsView::Fungible(*amount),
            LockContents::NonFungible(units) => LockContentsView::NonFungible(texts(units@)),
        }
    }
}

/// A copy of `units`, text by text.
pub fn copy_units(units: &Vec<String>) -> (copy: Vec<String>)
    ensures
        texts(copy@) == texts(units@),
{
    let mut copy: Vec<String> = Vec::new();
    let mut at: usize = 0;
    while at < units.len()
        invariant
            at <= units.len(),
            copy.len() == at,
            forall|k: int| 0 <= k < at ==> copy[k]@ == units[k]@,
        decreases units.len() - at,
    {
        copy.push(units[at].clone());
        at += 1;
    }
    assert(texts(copy@) =~= texts(units@));
    copy
}

/// Whether no text occurs twice in `units`.
pub fn all_distinct(units: &Vec<String>) -> (distinct: bool)
    ensures
        distinct == texts(units@).no_duplicates(),
{
    let mut upper: usize = 0;
    while upper < units.len()
        invariant
            upper <= units.len(),
            forall|a: int, b: int| 0 <= a < b < upper ==> units[a]@ != units[b]@,
        decreases units.len() - upper,
    {
        let mut lower: usize = 0;
        while lower < upper
            invariant
                lower <= upper < units.len(),
                forall|a: int| 0 <= a < lower ==> units[a]@ != units[upper as int]@,
            decreases upper - lower,
        {
            if units[lower] == units[upper] {
                assert(texts(units@)[lower as int] == texts(units@)[upper as int]);
                return false;
            }
            lower += 1;
        }
        upper += 1;
    }
    assert(texts(units@).no_duplicates()) by {
        assert forall|a: int, b: int|
            0 <= a < texts(units@).len() && 0 <= b < texts(units@).len() && a != b implies texts(
            units@,
        )[a] != texts(units@)[b] by {
            if a < b {
                assert(units[a]@ != units[b]@);
            } else {
                assert(units[b]@ != units[a]@);
            }
        }
    }
    true
}

impl Clone for LockContents {
    fn clone(&self) -> (copy: LockContents)
        ensures
            copy@ == self@,
    {
        match self {
            LockContents::Fungible(amount) => LockContents::Fungible(*amount),
            LockContents::NonFungible(units) => LockContents::NonFungible(copy_units(units)),
        }
    }
}

impl LockContents {
    /// Whether nothing is held.
    pub fn is_empty(&self) -> (empty: bool)
        ensures
            empty == self@.is_empty(),
    {
        match self {
            LockContents::Fungible(amount) => amount.is_zero(),
            LockContents::NonFungible(units) => units.len() == 0,
        }
    }

    /// The same kind of contents with nothing held.
    pub fn emptied(&self) -> (empty: LockContents)
        ensures
            empty@ == self@.emptied(),
    {
        match self {
            LockContents::Fungible(_) => LockContents::Fungible(Decimal::zero()),
            LockContents::NonFungible(_) => {
                let none: Vec<String> = Vec::new();
                assert(texts(none@) =~= Seq::<Seq<char>>::empty());
                LockContents::NonFungible(none)
            },
        }
    }
}

/// What an [`AssetContainer`] stands for: the kind of asset and how much of
/// it, or which units of it, the container holds.
#[verifier::ext_equal]
pub struct AssetContainerView {
    pub resource: ResourceAddress,
    pub contents: LockContentsView,
}

impl AssetContainerView {
    /// Whether the container holds nothing.
    pub open spec fn is_empty(self) -> bool {
        self.contents.is_empty()
    }

    /// The container after everything was taken out of it.
    pub open spec fn emptied(self) -> AssetContainerView {
        AssetContainerView { resource: self.resource, contents: self.contents.emptied() }
    }
}

/// A holder of assets of one kind: an amount of a fungible asset, or a set of
/// distinct units of a non-fungible one.
#[derive(Debug, PartialEq, Eq)]
pub struct AssetContainer {
    resource: ResourceAddress,
    contents: LockContents,
}

impl View for AssetContainer {
    type V = AssetContainerView;

    closed spec fn view(&self) -> AssetContainerView {
        AssetContainerView { resource: self.resource, contents: self.contents@ }
    }
}

impl AssetContainer {
    /// No container names a non-fungible unit twice.
    #[verifier::type_invariant]
    spec fn units_are_distinct(self) -> bool {
        self.contents@.units_distinct()
    }

    /// A container holding `amount` of the fungible asset `resource`.
    pub fn fungible(resource: ResourceAddress, amount: Decimal) -> (container: AssetContainer)
        ensures
            container@ == (AssetContainerView {
                resource,
                contents: LockContentsView::Fungible(amount),
            }),
    {
        AssetContainer { resource, contents: LockContents::Fungible(amount) }
    }

    /// A container holding the units `units` of the non-fungible asset
    /// `resource`; `None` if a unit is named twice.
    pub fn non_fungible(resource: ResourceAddress, units: Vec<String>) -> (container: Option<
        AssetContainer,
    >)
        ensures
            container is Some <==> texts(units@).no_duplicates(),
            container matches Some(c) ==> c@ == (AssetContainerView {
                resource,
                contents: LockContentsView::NonFungible(texts(units@)),
            }),
    {
        if all_distinct(&units) {
            Some(AssetContainer { resource, contents: LockContents::NonFungible(units) })
        } else {
            None
        }
    }

    /// The kind of asset held.
    pub fn resource_address(&self) -> (resource: ResourceAddress)
        ensures
            resource == self@.resource,
    {
        self.resource
    }

    /// Whether the container holds nothing.
    pub fn is_empty(&self) -> (empty: bool)
        ensures
            empty == self@.is_empty(),
    {
        self.contents.is_empty()
    }

    /// A description of what the container holds right now.
    pub fn classify(&self) -> (contents: LockContents)
        ensures
            contents@ == self@.contents,
            contents@.units_distinct(),
    {
        proof {
            use_type_invariant(self);
        }
        self.contents.clone()
    }

    /// Takes everything out: the result holds what the container held, and the
    /// container is left empty.
    pub fn take_all(&mut self) -> (taken: AssetContainer)
        ensures
            taken@ == old(self)@,
            final(self)@ == old(self)@.emptied(),
    {
        proof {
            use_type_invariant(&*self);
        }
        let mut contents = self.contents.emptied();
        core::mem::swap(&mut self.contents, &mut contents);
        AssetContainer { resource: self.resource, contents }
    }
}

} // verus!
