//! On-chain addresses: the hash of an account or of a contract package.

use vstd::prelude::*;
use vstd::std_specs::cmp::PartialEqSpecImpl;

verus! {

broadcast use vstd::array::group_array_axioms;

/// An account hash or a contract package hash, 32 bytes each.
#[derive(Clone, Copy, Debug)]
pub enum Address {
    Account([u8; 32]),
    Contract([u8; 32]),
}

/// The all-zero account hash, which stands for "nobody" before an invoice
/// is funded.
pub open spec fn is_zero_address(a: Address) -> bool {
    a matches Address::Account(h) && forall|i: int| 0 <= i < 32 ==> #[trigger] h@[i] == 0u8
}

/// The sentinel address: the all-zero account hash.
pub fn zero_address() -> (r: Address)
    ensures
        is_zero_address(r),
{
    Address::Account([0u8; 32])
}

/// Whether two 32-byte hashes are the same.
fn same_hash(a: &[u8; 32], b: &[u8; 32]) -> (r: bool)
    ensures
        r == (*a == *b),
{
    let mut i: usize = 0;
    while i < 32
        invariant
            0 <= i <= 32,
            forall|j: int| 0 <= j < i ==> a@[j] == b@[j],
        decreases 32 - i,
    {
        if a[i] != b[i] {
            return false;
        }
        i = i + 1;
    }
    assert(*a =~= *b);
    true
}

impl PartialEq for Address {
    fn eq(&self, other: &Self) -> (r: bool) {
        match (self, other) {
            (Address::Account(a), Address::Account(b)) => same_hash(a, b),
            (Address::Contract(a), Address::Contract(b)) => same_hash(a, b),
            _ => false,
        }
    }
}

impl PartialEqSpecImpl for Address {
    open spec fn obeys_eq_spec() -> bool {
        true
    }

    open spec fn eq_spec(&self, other: &Self) -> bool {
        *self == *other
    }
}

impl Eq for Address {
}

} // verus!
