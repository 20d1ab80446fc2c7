use vstd::prelude::*;

verus! {

broadcast use vstd::array::group_array_axioms;

/// The 32 bytes that name an account (a wallet, a mint, the pool's configuration).
#[derive(Debug, Clone, Copy, PartialEq, Eq)]
pub struct Address(pub [u8; 32]);

impl Address {
    /// The bytes of the address, as a sequence.
    pub open spec fn bytes(self) -> Seq<u8> {
        self.0@
    }

    /// The bytes of the address, in order.
    pub fn to_bytes(&self) -> (r: [u8; 32])
        ensures
            r@ == self.bytes(),
    {
        self.0
    }
}

/// Two addresses are the same account exactly when their bytes agree.
pub proof fn lemma_address_bytes_determine_address(a: Address, b: Address)
    requires
        a.bytes() == b.bytes(),
    ensures
        a == b,
{
    assert(a.0 == b.0);
}

/// Whether `a` and `b` name the same account.
pub fn same_address(a: &Address, b: &Address) -> (r: bool)
    ensures
        r == (*a == *b),
{
    let mut i: usize = 0;
    while i < 32
        invariant
            i <= 32,
            forall|j: int| 0 <= j < i ==> a.0@[j] == b.0@[j],
        decreases 32 - i,
    {
        if a.0[i] != b.0[i] {
            return false;
        }
        i = i + 1;
    }
    proof {
        assert(a.0@ =~= b.0@);
        lemma_address_bytes_determine_address(*a, *b);
    }
    true
}

} // verus!
