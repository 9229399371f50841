//! Principals: the identities that own wills and receive shares.

use vstd::prelude::*;

verus! {

/// What a principal's 32-byte key stands for.
#[derive(Clone, Copy, Debug, PartialEq, Eq, Structural)]
pub enum PrincipalKind {
    /// An account, named by its public key.
    Account,
    /// A contract, named by its hash.
    Contract,
}

/// An identity that can authorize operations.
#[derive(Clone, Copy, Debug, Eq)]
pub struct Principal {
    pub kind: PrincipalKind,
    pub key: [u8; 32],
}

/// Whether two 32-byte values hold the same bytes.
pub fn bytes32_eq(a: &[u8; 32], b: &[u8; 32]) -> (same: bool)
    ensures
        same == (*a == *b),
{
    let mut i: usize = 0;
    while i < 32
        invariant
            i <= 32,
            forall|j: int| 0 <= j < i ==> a[j] == b[j],
        decreases 32 - i,
    {
        if a[i] != b[i] {
            return false;
        }
        i = i + 1;
    }
    assert(*a =~= *b);
    true
}

impl PartialEq for Principal {
    fn eq(&self, other: &Self) -> (same: bool) {
        self.kind == other.kind && bytes32_eq(&self.key, &other.key)
    }
}

impl vstd::std_specs::cmp::PartialEqSpecImpl for Principal {
    open spec fn obeys_eq_spec() -> bool {
        true
    }

    open spec fn eq_spec(&self, other: &Self) -> bool {
        self.kind == other.kind && self.key == other.key
    }
}

pub fn same(a: &Principal, b: &Principal) -> (r: bool)
    ensures
        r == (*a == *b),
{
    *a == *b
}

} // verus!
