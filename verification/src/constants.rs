//! Program-wide constants.
use vstd::prelude::*;
use crate::pubkey::Pubkey;

verus! {

/// 10000 basis points make 100 %.
pub const MAX_BASIS_POINTS: u16 = 10000;

/// Size of the account discriminator that prefixes every account's data.
pub const DISCRIMINATOR_BYTES_SIZE: usize = 8;

/// Unlock dates at or beyond this bound are refused.
pub const INVALID_TIME_BOUND: i64 = 10000000000;

/// The only key allowed to initialize the configuration,
/// `Fa8RNztZiKS1u17N5vtZ4goMBH6jHkRWVEC7ifP7aN6Y`.
pub open spec fn spec_initial_admin() -> Pubkey {
    Pubkey {
        bytes: [
            216u8, 128u8, 44u8, 130u8, 106u8, 26u8, 64u8, 222u8, 87u8, 93u8, 55u8, 88u8, 171u8, 150u8,
            168u8, 154u8, 33u8, 217u8, 219u8, 6u8, 124u8, 156u8, 101u8, 53u8, 246u8, 61u8, 171u8,
            228u8, 137u8, 32u8, 66u8, 125u8,
        ],
    }
}

/// The only key allowed to initialize the configuration.
pub fn initial_admin() -> (r: Pubkey)
    ensures
        r == spec_initial_admin(),
{
    Pubkey {
        bytes: [
            216u8, 128u8, 44u8, 130u8, 106u8, 26u8, 64u8, 222u8, 87u8, 93u8, 55u8, 88u8, 171u8, 150u8,
            168u8, 154u8, 33u8, 217u8, 219u8, 6u8, 124u8, 156u8, 101u8, 53u8, 246u8, 61u8, 171u8,
            228u8, 137u8, 32u8, 66u8, 125u8,
        ],
    }
}

} // verus!
