//! Identities: the accounts that trade, and the contracts that hold assets.

use vstd::prelude::*;

verus! {

broadcast use vstd::array::group_array_axioms;

/// Byte-wise equality of two 32-byte hashes.
fn hash_eq(a: &[u8; 32], b: &[u8; 32]) -> (r: bool)
    ensures
        r == (*a == *b),
{
    let mut i: usize = 0;
    while i < 32
        invariant
            0 <= i <= 32,
            forall|j: int| 0 <= j < i ==> a[j] == b[j],
        decreases 32 - i,
    {
        if a[i] != b[i] {
            return false;
        }
        i = i + 1;
    }
    assert(*a =~= *b);
    true
}

/// An account that sells, bids, buys or receives fees, named by its
/// 32-byte account hash.
#[derive(Clone, Copy, Debug)]
pub struct Party {
    pub hash: [u8; 32],
}

impl Party {
    pub fn new(hash: [u8; 32]) -> (r: Party)
        ensures
            r.hash == hash,
    {
        Party { hash }
    }
}

impl PartialEq for Party {
    fn eq(&self, o: &Party) -> (r: bool) {
        hash_eq(&self.hash, &o.hash)
    }
}

impl Eq for Party {}

impl vstd::std_specs::cmp::PartialEqSpecImpl for Party {
    open spec fn obeys_eq_spec() -> bool {
        true
    }

    open spec fn eq_spec(&self, o: &Party) -> bool {
        self.hash == o.hash
    }
}

/// The contract that keeps custody of a kind of asset, named by its 32-byte
/// contract hash.
#[derive(Clone, Copy, Debug)]
pub struct AssetContract {
    pub hash: [u8; 32],
}

impl AssetContract {
    pub fn new(hash: [u8; 32]) -> (r: AssetContract)
        ensures
            r.hash == hash,
    {
        AssetContract { hash }
    }
}

impl PartialEq for AssetContract {
    fn eq(&self, o: &AssetContract) -> (r: bool) {
        hash_eq(&self.hash, &o.hash)
    }
}

impl Eq for AssetContract {}

impl vstd::std_specs::cmp::PartialEqSpecImpl for AssetContract {
    open spec fn obeys_eq_spec() -> bool {
        true
    }

    open spec fn eq_spec(&self, o: &AssetContract) -> bool {
        self.hash == o.hash
    }
}

} // verus!
