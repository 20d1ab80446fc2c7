use vstd::prelude::*;
use vstd::bytes::{spec_u64_to_le_bytes, u64_to_le_bytes, lemma_auto_spec_u64_to_from_le_bytes};

use crate::address::{Address, lemma_address_bytes_determine_address};

verus! {

/// The first seed of the pool's configuration address: the bytes of `config`.
pub open spec fn config_prefix() -> Seq<u8> {
    // ASCII `c o n f i g`
    seq![99u8, 111u8, 110u8, 102u8, 105u8, 103u8]
}

/// What the pool signs with when it moves tokens out of its vaults: the seeds of
/// its configuration's program-derived address.
#[derive(Debug, Clone, Copy, PartialEq, Eq)]
pub struct PoolSeeds {
    pub mint_x: Address,
    pub mint_y: Address,
    pub seed: u64,
    pub bump: u8,
}

impl PoolSeeds {
    /// The seeds in the order the runtime hashes them: `config`, the two mints,
    /// the pool's seed in little-endian bytes, and the bump.
    pub open spec fn seed_parts(self) -> Seq<Seq<u8>> {
        seq![
            config_prefix(),
            self.mint_x.bytes(),
            self.mint_y.bytes(),
            spec_u64_to_le_bytes(self.seed),
            seq![self.bump],
        ]
    }

    /// The seeds as byte vectors, ready to be handed to the runtime.
    pub fn to_seed_parts(&self) -> (r: Vec<Vec<u8>>)
        ensures
            r@.len() == 5,
            forall|i: int| 0 <= i < 5 ==> #[trigger] r@[i]@ == self.seed_parts()[i],
            r@[0]@ == seq![99u8, 111u8, 110u8, 102u8, 105u8, 103u8],
            r@[1]@ == self.mint_x.0@,
            r@[2]@ == self.mint_y.0@,
            r@[3]@ == spec_u64_to_le_bytes(self.seed),
            r@[4]@ == seq![self.bump],
    {
        let mut parts: Vec<Vec<u8>> = Vec::new();
        let prefix: Vec<u8> = vec![99u8, 111u8, 110u8, 102u8, 105u8, 103u8];
        assert(prefix@ =~= config_prefix());
        parts.push(prefix);
        parts.push(address_to_vec(&self.mint_x));
        parts.push(address_to_vec(&self.mint_y));
        parts.push(u64_to_le_bytes(self.seed));
        let bump: Vec<u8> = vec![self.bump];
        assert(bump@ =~= seq![self.bump]);
        parts.push(bump);
        parts
    }
}

/// The bytes of an address as a vector.
fn address_to_vec(a: &Address) -> (r: Vec<u8>)
    ensures
        r@ == a.bytes(),
{
    let mut v: Vec<u8> = Vec::new();
    let mut i: usize = 0;
    while i < 32
        invariant
            i <= 32,
            v@ =~= a.bytes().take(i as int),
            a.bytes().len() == 32,
        decreases 32 - i,
    {
        v.push(a.0[i]);
        i = i + 1;
        assert(v@ =~= a.bytes().take(i as int));
    }
    assert(a.bytes().take(32) =~= a.bytes());
    v
}

/// The seeds identify the pool: two signers whose seeds are equal have the same
/// mints, the same seed and the same bump.
pub proof fn lemma_pool_seeds_identify_pool(a: PoolSeeds, b: PoolSeeds)
    requires
        a.seed_parts() == b.seed_parts(),
    ensures
        a == b,
{
    assert(a.seed_parts()[1] == b.seed_parts()[1]);
    assert(a.seed_parts()[2] == b.seed_parts()[2]);
    assert(a.seed_parts()[3] == b.seed_parts()[3]);
    assert(a.seed_parts()[4] == b.seed_parts()[4]);
    lemma_address_bytes_determine_address(a.mint_x, b.mint_x);
    lemma_address_bytes_determine_address(a.mint_y, b.mint_y);
    lemma_auto_spec_u64_to_from_le_bytes();
    assert(spec_u64_to_le_bytes(a.seed) == spec_u64_to_le_bytes(b.seed));
    assert(seq![a.bump][0] == seq![b.bump][0]);
}

} // verus!
