//! Addresses that name a kind of asset.

use vstd::prelude::*;
use vstd::std_specs::cmp::PartialEqSpecImpl;

verus! {

/// Number of bytes in an address.
pub const ADDRESS_LENGTH: usize = 30;

/// The address of a resource: it names one kind of asset, and with it every
/// container and token of that kind.
#[derive(Clone, Copy, Debug, Eq, Hash)]
pub struct ResourceAddress {
    pub node_id: [u8; 30],
}

impl ResourceAddress {
    pub fn new(node_id: [u8; 30]) -> (address: ResourceAddress)
        ensures
            address.node_id == node_id,
    {
        ResourceAddress { node_id }
    }
}

impl PartialEq for ResourceAddress {
    /// Two addresses are equal when all their bytes are.
    fn eq(&self, other: &ResourceAddress) -> (equal: bool) {
        let mut at: usize = 0;
        while at < ADDRESS_LENGTH
            invariant
                at <= ADDRESS_LENGTH,
                forall|k: int| 0 <= k < at ==> self.node_id[k] == other.node_id[k],
            decreases ADDRESS_LENGTH - at,
        {
            if self.node_id[at] != other.node_id[at] {
                return false;
            }
            at += 1;
        }
        assert(self.node_id =~= other.node_id);
        true
    }
}

impl PartialEqSpecImpl for ResourceAddress {
    open spec fn obeys_eq_spec() -> bool {
        true
    }

    open spec fn eq_spec(&self, other: &ResourceAddress) -> bool {
        *self == *other
    }
}

} // verus!
