//! Token movements an instruction asks for, and the clean-up of a user's lock tracking.
use vstd::prelude::*;
use crate::error::{LockerError, UncxLpError};
use crate::pubkey::Pubkey;
use crate::state::search::first_position;
use crate::state::user_info::{UserInfoAccount, UserLpInfoAccount};

verus! {

/// A movement of lamports or tokens that an instruction performs once its checks have passed.
#[derive(Clone, Copy, Debug, PartialEq, Eq)]
pub enum TokenAction {
    /// lamports from a signer's wallet to another wallet
    NativeTransfer { from: Pubkey, to: Pubkey, amount: u64 },
    /// tokens between two token accounts, authorised by a signer
    TokenTransfer { from: Pubkey, to: Pubkey, authority: Pubkey, amount: u64 },
    /// tokens out of the locker's vault, authorised by the locker's authority address, which
    /// signs with its seed and `authority_bump`
    SignedTokenTransfer { from: Pubkey, to: Pubkey, authority: Pubkey, authority_bump: u8, amount: u64 },
    /// tokens burnt from a token account, authorised by a signer
    Burn { from: Pubkey, mint: Pubkey, authority: Pubkey, amount: u64 },
}

/// A token transfer; a zero amount moves nothing.
pub fn token_transfer(amount: u64, from: Pubkey, to: Pubkey, authority: Pubkey) -> (r: Option<TokenAction>)
    ensures
        amount == 0 ==> r is None,
        amount > 0 ==> r == Some(TokenAction::TokenTransfer { from, to, authority, amount }),
{
    if amount > 0 {
        Some(TokenAction::TokenTransfer { from, to, authority, amount })
    } else {
        None
    }
}

/// A lamport transfer; a zero amount moves nothing.
pub fn system_program_transfer(amount: u64, from: Pubkey, to: Pubkey) -> (r: Option<TokenAction>)
    ensures
        amount == 0 ==> r is None,
        amount > 0 ==> r == Some(TokenAction::NativeTransfer { from, to, amount }),
{
    if amount > 0 {
        Some(TokenAction::NativeTransfer { from, to, amount })
    } else {
        None
    }
}

/// A transfer out of the vault signed by the locker's authority, whose signer seeds end in
/// `authority_bump` (made even for a zero amount).
pub fn token_transfer_signed(amount: u64, from: Pubkey, to: Pubkey, authority: Pubkey, authority_bump: u8) -> (r: TokenAction)
    ensures
        r == (TokenAction::SignedTokenTransfer { from, to, authority, authority_bump, amount }),
{
    TokenAction::SignedTokenTransfer { from, to, authority, authority_bump, amount }
}

/// A burn of tokens (made even for a zero amount).
pub fn burn_token(amount: u64, from: Pubkey, mint: Pubkey, authority: Pubkey) -> (r: TokenAction)
    ensures
        r == (TokenAction::Burn { from, mint, authority, amount }),
{
    TokenAction::Burn { from, mint, authority, amount }
}

/// Which tracking accounts a clean-up closed (their rent goes back to the lock owner).
#[derive(Clone, Copy, Debug, PartialEq, Eq, Structural)]
pub struct TrackerCleanup {
    /// the tracker listed no lock any more
    pub tracker_closed: bool,
    /// the user holds no lock of this pool any more
    pub user_info_closed: bool,
}

/// Removes a lock from the user's tracker and from the user's lock count; closes the tracker
/// when it lists no lock any more and the user's account when the count reaches zero.
/// Refuses a lock the tracker does not list.
pub fn clean_locker_from_tracker_and_close(
    user_lp_tracker_acc: &mut UserLpInfoAccount,
    user_info_acc: &mut UserInfoAccount,
    locker_id: u64,
) -> (r: Result<TrackerCleanup, LockerError>)
    requires
        old(user_lp_tracker_acc).associated_locker_ids@.contains(locker_id) ==> old(user_info_acc).lp_locker_count > 0,
    ensures
        r is Ok <==> old(user_lp_tracker_acc).associated_locker_ids@.contains(locker_id),
        r is Err ==> r == Err::<TrackerCleanup, LockerError>(LockerError::Uncx(UncxLpError::MissingLockerId))
            && final(user_lp_tracker_acc).associated_locker_ids@ == old(user_lp_tracker_acc).associated_locker_ids@
            && final(user_lp_tracker_acc).bump == old(user_lp_tracker_acc).bump
            && *final(user_info_acc) == *old(user_info_acc),
        r matches Ok(c) ==> {
            &&& final(user_lp_tracker_acc).associated_locker_ids@ == old(user_lp_tracker_acc).associated_locker_ids@.remove(
                first_position(old(user_lp_tracker_acc).associated_locker_ids@, locker_id),
            )
            &&& final(user_lp_tracker_acc).bump == old(user_lp_tracker_acc).bump
            &&& *final(user_info_acc) == (UserInfoAccount {
                lp_locker_count: (old(user_info_acc).lp_locker_count - 1) as u64,
                ..*old(user_info_acc)
            })
            &&& c.tracker_closed == (final(user_lp_tracker_acc).associated_locker_ids@.len() == 0)
            &&& c.user_info_closed == (final(user_info_acc).lp_locker_count == 0)
        },
{
    user_lp_tracker_acc.find_and_remove_locker_from_tracking(locker_id)?;
    let tracker_closed = user_lp_tracker_acc.associated_locker_ids.len() == 0;
    user_info_acc.lp_locker_count = user_info_acc.lp_locker_count - 1;
    let user_info_closed = user_info_acc.lp_locker_count == 0;
    Ok(TrackerCleanup { tracker_closed, user_info_closed })
}

} // verus!
