use vstd::prelude::*;

verus! {

/// The 32 bytes of an account address.
#[derive(Clone, Copy, Debug)]
pub struct Key {
    pub bytes: [u8; 32],
}

impl PartialEq for Key {
    /// Two keys are equal when all their bytes are.
    fn eq(&self, other: &Key) -> (r: bool) {
        let mut i: usize = 0;
        while i < 32
            invariant
                i <= 32,
                forall|j: int| 0 <= j < i ==> self.bytes@[j] == other.bytes@[j],
            decreases 32 - i,
        {
            if self.bytes[i] != other.bytes[i] {
                return false;
            }
            i = i + 1;
        }
        proof {
            assert(self.bytes@ =~= other.bytes@);
        }
        true
    }
}

impl vstd::std_specs::cmp::PartialEqSpecImpl for Key {
    open spec fn obeys_eq_spec() -> bool {
        true
    }

    open spec fn eq_spec(&self, other: &Key) -> bool {
        self.bytes@ == other.bytes@
    }
}

/// The stored settings of one pool.
#[derive(Clone, Copy, Debug)]
pub struct Config {
    /// The number that tells this pool from the others.
    pub seed: u64,
    /// Who may collect the fees, if anyone.
    pub authority: Option<Key>,
    pub mint_x: Key,
    pub mint_y: Key,
    /// Where the fees paid in token X are kept.
    pub treasury_x: Key,
    /// Where the fees paid in token Y are kept.
    pub treasury_y: Key,
    /// The swap fee, in basis points.
    pub fee: u16,
    /// A locked pool takes no deposits, withdrawals or swaps.
    pub locked: bool,
    pub config_bump: u8,
    pub lp_bump: u8,
}

/// Whether two keys name the same account.
pub open spec fn same_key(a: Key, b: Key) -> bool {
    a.bytes@ == b.bytes@
}

} // verus!
