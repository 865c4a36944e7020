//! Identities as the host supplies them.

use vstd::prelude::*;

verus! {

/// What kind of party an address names.
#[derive(Clone, Copy, Debug, PartialEq, Eq, Structural)]
pub enum AddressType {
    Account,
    SystemContract,
    PublicContract,
    ZkContract,
    GovContract,
}

/// The identity of a caller: a kind and a 20-byte identifier.
///
/// Two addresses are the same identity exactly when both parts agree; `==`
/// in executable code decides that.
#[derive(Clone, Copy, Debug, Eq)]
pub struct Address {
    pub address_type: AddressType,
    pub identifier: [u8; 20],
}

impl PartialEq for Address {
    fn eq(&self, other: &Address) -> (r: bool) {
        if self.address_type != other.address_type {
            return false;
        }
        let mut i: usize = 0;
        while i < 20
            invariant
                i <= 20,
                forall|j: int| 0 <= j < i ==> self.identifier[j] == other.identifier[j],
            decreases 20 - i,
        {
            if self.identifier[i] != other.identifier[i] {
                return false;
            }
            i = i + 1;
        }
        assert(self.identifier =~= other.identifier);
        true
    }
}

impl vstd::std_specs::cmp::PartialEqSpecImpl for Address {
    open spec fn obeys_eq_spec() -> bool {
        true
    }

    open spec fn eq_spec(&self, other: &Address) -> bool {
        *self == *other
    }
}

} // verus!
