//! Per-user tracking of the locks a user holds for one AMM.
use vstd::prelude::*;
use crate::error::{LockerError, UncxLpError};
use crate::pubkey::Pubkey;
use crate::state::search::{first_position, position_u64};

verus! {

/// Number of lock ids one tracker account holds.
pub const MAX_LP_TRACK_PER_ACCOUNT: u16 = 15;

/// Counts the locks a user holds for one AMM.
#[derive(Clone, Copy, Debug, PartialEq, Eq)]
pub struct UserInfoAccount {
    pub bump: u8,
    pub user: Pubkey,
    pub lp_mint: Pubkey,
    /// number of the user's locks for this AMM
    pub lp_locker_count: u64,
}

/// Lists the ids of a user's locks for one AMM (one of several such accounts).
#[derive(Clone, Debug, PartialEq, Eq)]
pub struct UserLpInfoAccount {
    pub bump: u8,
    pub associated_locker_ids: Vec<u64>,
}

/// Index of the tracker account that the next lock of a user goes to.
pub open spec fn spec_tracker_index(lp_locker_count: u64) -> u64 {
    (lp_locker_count / (MAX_LP_TRACK_PER_ACCOUNT as u64)) as u64
}

impl UserInfoAccount {
    /// The little-endian bytes of the tracker index, used as a seed of the tracker account.
    pub fn next_user_lp_acc_index(&self) -> (r: [u8; 8])
        ensures
            r@ == vstd::bytes::spec_u64_to_le_bytes(spec_tracker_index(self.lp_locker_count)),
    {
        let x: u64 = self.lp_locker_count / (MAX_LP_TRACK_PER_ACCOUNT as u64);
        let r: [u8; 8] = [
            (x & 0xff) as u8,
            ((x >> 8u64) & 0xff) as u8,
            ((x >> 16u64) & 0xff) as u8,
            ((x >> 24u64) & 0xff) as u8,
            ((x >> 32u64) & 0xff) as u8,
            ((x >> 40u64) & 0xff) as u8,
            ((x >> 48u64) & 0xff) as u8,
            ((x >> 56u64) & 0xff) as u8,
        ];
        proof {
            vstd::bytes::spec_u64_to_le_bytes_to_open(x);
            assert(r@ =~= vstd::bytes::spec_u64_to_le_bytes_open(x));
        }
        r
    }
}

impl UserLpInfoAccount {
    /// Account size for a tracker holding `len` ids: discriminator, bump, length prefix, ids.
    pub fn space(len: usize) -> (r: usize)
        requires
            13 + 8 * len <= usize::MAX,
        ensures
            r == 8 + 1 + (4 + len * 8),
    {
        8 + 1 + (4 + (len * 8))
    }

    /// Removes a lock id from the tracker; refuses an id that is not tracked.
    pub fn find_and_remove_locker_from_tracking(&mut self, locker_id_to_remove: u64) -> (r: Result<(), LockerError>)
        ensures
            r is Ok <==> old(self).associated_locker_ids@.contains(locker_id_to_remove),
            r is Ok ==> final(self).associated_locker_ids@ == old(self).associated_locker_ids@.remove(
                first_position(old(self).associated_locker_ids@, locker_id_to_remove),
            ),
            r is Err ==> r == Err::<(), LockerError>(LockerError::Uncx(UncxLpError::MissingLockerId))
                && final(self).associated_locker_ids@ == old(self).associated_locker_ids@,
            final(self).bump == old(self).bump,
    {
        match position_u64(&self.associated_locker_ids, locker_id_to_remove) {
            None => Err(LockerError::Uncx(UncxLpError::MissingLockerId)),
            Some(idx) => {
                self.associated_locker_ids.remove(idx);
                Ok(())
            },
        }
    }
}

} // verus!
