//! Identifiers of ledger accounts.

use vstd::prelude::*;
use vstd::std_specs::cmp::PartialEqSpecImpl;

verus! {

/// The 32-byte identifier of an account, a program or an owner on the ledger.
///
/// Two identifiers are equal exactly when their bytes are.
#[derive(Clone, Copy, Debug, Eq)]
pub struct Address {
    pub bytes: [u8; 32],
}

impl View for Address {
    type V = Seq<u8>;

    open spec fn view(&self) -> Seq<u8> {
        self.bytes@
    }
}

impl Address {
    /// The identifier made of the given bytes.
    pub fn new(bytes: [u8; 32]) -> (address: Address)
        ensures
            address.bytes == bytes,
    {
        Address { bytes }
    }

    /// The all-zero identifier, which an untouched record holds.
    pub fn zero() -> (address: Address)
        ensures
            address@ == Seq::new(32, |i: int| 0u8),
    {
        Address { bytes: [0u8; 32] }
    }
}

impl PartialEq for Address {
    fn eq(&self, other: &Address) -> (equal: bool) {
        let mut i: usize = 0;
        while i < 32
            invariant
                i <= 32,
                forall|j: int| 0 <= j < i ==> self.bytes[j] == other.bytes[j],
            decreases 32 - i,
        {
            if self.bytes[i] != other.bytes[i] {
                return false;
            }
            i += 1;
        }
        assert(self.bytes =~= other.bytes);
        true
    }
}

impl PartialEqSpecImpl for Address {
    open spec fn obeys_eq_spec() -> bool {
        true
    }

    open spec fn eq_spec(&self, other: &Address) -> bool {
        *self == *other
    }
}

/// Identifiers with the same view are the same identifier.
pub proof fn address_extensionality(a: Address, b: Address)
    requires
        a@ == b@,
    ensures
        a == b,
{
    assert(a.bytes =~= b.bytes);
}

} // verus!
