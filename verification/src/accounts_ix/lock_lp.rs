//! Accounts of the instruction that creates a lock, and the checks on the Raydium pool and the
//! token metadata it reads.
use vstd::prelude::*;
use crate::accounts_ix::{check, raw, spec_raw, RawAccount, TokenAccountData};
use crate::error::{FrameworkError, LockerError, RaydiumAmmError, UncxLpError};
use crate::le_bytes::le_u64_at;
use crate::metadata::{
    metadata_from_bytes, spec_metadata_from_bytes, spec_token_metadata_program_id, token_metadata_program_id,
    TokenMetadata,
};
use crate::pubkey::Pubkey;
use crate::raydium_port::calc_reserves::{actual_reserves_defined, actual_reserves_in_range, calc_actual_reserves, spec_actual_reserves};
use crate::raydium_port::state::{
    is_raydium_amm_id, spec_amm_info, spec_target_orders, AmmInfo, TargetOrders, AMM_INFO_SIZE, TARGET_ORDERS_SIZE,
};
use crate::state::configuration::{ConfigurationAccount, Whitelisted};
use crate::state::token_lock::{GlobalLpMintMarker, TokenLock};
use crate::state::user_info::{UserInfoAccount, UserLpInfoAccount};

verus! {

/// Everything a new lock touches: the payer; the locker's vault, authority, pool marker, the new
/// lock and the configuration; the liquidity-token mint and the locker's token account and its
/// optional separate authority; the optional referral wallet and its token accounts; the
/// optional secondary-token accounts; the optional dev accounts; the optional whitelist marker
/// and its signer; the lock owner's tracking accounts; the metadata of the pool's two tokens;
/// and the Raydium pool, its target orders and its two vaults.
#[derive(Clone, Debug, PartialEq, Eq)]
pub struct CreateAndLockLp {
    pub payer: Pubkey,
    pub uncx_lock_lp_vault_acc: TokenAccountData,
    pub uncx_authority_acc: Pubkey,
    pub global_lp_marker_acc: GlobalLpMintMarker,
    /// the new, zero-filled lock account
    pub lp_locker_acc: TokenLock,
    pub config_account: ConfigurationAccount,
    pub lp_mint_acc: Pubkey,
    pub user_lp_token_acc: TokenAccountData,
    pub user_lp_token_authority_acc: Option<Pubkey>,
    pub referral_wallet: Option<Pubkey>,
    /// shows the referrer's balance of the referral token, which must exceed the minimum
    pub referral_token_account: Option<TokenAccountData>,
    pub user_secondary_token_account: Option<TokenAccountData>,
    pub referral_secondary_token_account: Option<TokenAccountData>,
    pub user_secondary_token_authority_acc: Option<Pubkey>,
    pub secondary_token_mint: Option<Pubkey>,
    pub dev_lp_token_account: Option<TokenAccountData>,
    pub dev_wallet: Option<Pubkey>,
    pub user_whitelist_pda_acc: Option<Whitelisted>,
    pub whitelist_address: Option<Pubkey>,
    pub user_info_acc: UserInfoAccount,
    pub user_info_lp_tracker_acc: UserLpInfoAccount,
    pub coin_metadata_account: RawAccount,
    pub pc_metadata_account: RawAccount,
    pub amm_info_acc: RawAccount,
    pub amm_target_orders_info_acc: RawAccount,
    pub pc_vault_token_acc: TokenAccountData,
    pub coin_vault_token_acc: TokenAccountData,
}

/// The bump seeds found for the accounts a new lock creates.
#[derive(Clone, Copy, Debug, PartialEq, Eq, Structural)]
pub struct CreateAndLockLpBumps {
    pub lp_locker_acc: u8,
    pub user_info_acc: u8,
    pub user_info_lp_tracker_acc: u8,
    pub global_lp_marker_acc: u8,
}

/// The first of the constraints on the referral token account and before it that the accounts
/// break.
pub open spec fn spec_validate_head(accs: CreateAndLockLp) -> Result<(), LockerError> {
    let amm = accs.amm_info_acc;
    if accs.uncx_authority_acc != accs.config_account.uncx_authority_pda_address {
        Err(spec_raw())
    } else if !is_raydium_amm_id(amm.owner) {
        Err(LockerError::Raydium(RaydiumAmmError::InvalidAmmAccountOwner))
    } else if amm.data@.len() != AMM_INFO_SIZE {
        Err(LockerError::Raydium(RaydiumAmmError::ExpectedAccount))
    } else if le_u64_at(amm.data@, 0) == 0 {
        Err(LockerError::Raydium(RaydiumAmmError::InvalidStatus))
    } else if accs.lp_mint_acc != spec_amm_info(amm.data@).lp_mint {
        Err(spec_raw())
    } else if accs.referral_token_account is Some && accs.referral_token_account->0.amount
        <= accs.config_account.config.min_referral_balance {
        Err(LockerError::Uncx(UncxLpError::InsufficientReferralBalance))
    } else {
        Ok(())
    }
}

/// The pool's vaults and target orders are the accounts passed.
pub open spec fn reserve_accounts_match(accs: CreateAndLockLp, info: AmmInfo) -> bool {
    &&& info.pc_vault == accs.pc_vault_token_acc.key
    &&& info.coin_vault == accs.coin_vault_token_acc.key
    &&& info.target_orders == accs.amm_target_orders_info_acc.key
}

/// The true reserves of the pool, or the error reading them ends with.
pub open spec fn spec_checked_reserves(accs: CreateAndLockLp, info: AmmInfo) -> Result<(u64, u64, u64), LockerError> {
    if !reserve_accounts_match(accs, info) {
        Err(LockerError::Uncx(UncxLpError::InvalidRaydiumV4Accounts))
    } else {
        spec_actual_reserves(
            info,
            spec_target_orders(accs.amm_target_orders_info_acc.data@),
            accs.pc_vault_token_acc.amount,
            accs.coin_vault_token_acc.amount,
        )
    }
}

/// Reading the reserves neither panics nor overflows: the target orders have their size and the
/// arithmetic stays in range.
pub open spec fn reserves_readable(accs: CreateAndLockLp, info: AmmInfo) -> bool {
    reserve_accounts_match(accs, info) ==> {
        &&& accs.amm_target_orders_info_acc.data@.len() == TARGET_ORDERS_SIZE
        &&& actual_reserves_defined(
            info,
            spec_target_orders(accs.amm_target_orders_info_acc.data@),
            accs.pc_vault_token_acc.amount,
            accs.coin_vault_token_acc.amount,
        )
    }
}

/// Why the metadata of the pool's tokens is refused, if it is: it must decode, describe the
/// pool's two mints, and belong to the token-metadata program.
pub open spec fn spec_metadata_error(accs: CreateAndLockLp) -> Option<LockerError> {
    let info = spec_amm_info(accs.amm_info_acc.data@);
    match (
        spec_metadata_from_bytes(accs.coin_metadata_account.data@),
        spec_metadata_from_bytes(accs.pc_metadata_account.data@),
    ) {
        (Some(coin), Some(pc)) => if coin.0 == info.coin_vault_mint.bytes@ && pc.0 == info.pc_vault_mint.bytes@
            && accs.coin_metadata_account.owner.bytes == spec_token_metadata_program_id()
            && accs.pc_metadata_account.owner.bytes == spec_token_metadata_program_id() {
            None
        } else {
            Some(LockerError::Uncx(UncxLpError::InvalidTokenMetadata))
        },
        _ => Some(LockerError::Framework(FrameworkError::BorshIoError)),
    }
}

/// Accepts the decoded metadata of the pool's coin and pc tokens when both decoded, describe the
/// pool's mints and belong to the token-metadata program.
pub fn check_token_metadata(
    amm_info: &AmmInfo,
    coin_metadata_owner: &Pubkey,
    pc_metadata_owner: &Pubkey,
    coin_metadata: Result<TokenMetadata, std::io::Error>,
    pc_metadata: Result<TokenMetadata, std::io::Error>,
) -> (r: Result<(TokenMetadata, TokenMetadata), LockerError>)
    ensures
        coin_metadata is Err ==> r == Err::<(TokenMetadata, TokenMetadata), LockerError>(
            LockerError::Framework(FrameworkError::BorshIoError),
        ),
        coin_metadata is Ok && pc_metadata is Err ==> r == Err::<(TokenMetadata, TokenMetadata), LockerError>(
            LockerError::Framework(FrameworkError::BorshIoError),
        ),
        coin_metadata matches Ok(coin) ==> pc_metadata matches Ok(pc) ==> {
            if coin.mint == amm_info.coin_vault_mint && pc.mint == amm_info.pc_vault_mint && coin_metadata_owner.bytes
                == spec_token_metadata_program_id() && pc_metadata_owner.bytes == spec_token_metadata_program_id() {
                r == Ok::<(TokenMetadata, TokenMetadata), LockerError>((coin, pc))
            } else {
                r == Err::<(TokenMetadata, TokenMetadata), LockerError>(
                    LockerError::Uncx(UncxLpError::InvalidTokenMetadata),
                )
            }
        },
{
    let coin = match coin_metadata {
        Ok(m) => m,
        Err(_) => return Err(LockerError::Framework(FrameworkError::BorshIoError)),
    };
    let pc = match pc_metadata {
        Ok(m) => m,
        Err(_) => return Err(LockerError::Framework(FrameworkError::BorshIoError)),
    };
    let program = token_metadata_program_id();
    if coin.mint == amm_info.coin_vault_mint && pc.mint == amm_info.pc_vault_mint && *coin_metadata_owner == program
        && *pc_metadata_owner == program {
        Ok((coin, pc))
    } else {
        Err(LockerError::Uncx(UncxLpError::InvalidTokenMetadata))
    }
}

impl CreateAndLockLp {
    /// The first constraint the accounts break, in the order they are checked.
    pub open spec fn spec_validate(&self) -> Result<(), LockerError> {
        let cfg = self.config_account.config;
        if spec_validate_head(*self) is Err {
            spec_validate_head(*self)
        } else if self.secondary_token_mint is Some && Some(self.secondary_token_mint->0) != cfg.secondary_token_address {
            Err(LockerError::Uncx(UncxLpError::InvalidAccountError))
        } else if self.dev_wallet is Some && self.dev_wallet->0 != cfg.dev_addr {
            Err(spec_raw())
        } else {
            Ok(())
        }
    }

    /// The authority is the locker's; the pool is an initialized Raydium pool whose liquidity
    /// mint is the one passed; a referrer holds more than the minimum balance of the referral
    /// token; the secondary mint
    /// and the dev wallet, when passed, are the configured ones.
    pub fn validate(&self) -> (r: Result<(), LockerError>)
        requires
            spec_validate_head(*self) is Ok && self.secondary_token_mint is Some
                ==> self.config_account.config.secondary_token_address is Some,
        ensures
            r == self.spec_validate(),
    {
        check(self.uncx_authority_acc == self.config_account.uncx_authority_pda_address, raw())?;
        let amm_info = AmmInfo::load_checked(&self.amm_info_acc.owner, self.amm_info_acc.data.as_slice())?;
        check(self.lp_mint_acc == amm_info.lp_mint, raw())?;
        if let Some(t) = &self.referral_token_account {
            check(
                t.amount > self.config_account.config.min_referral_balance,
                LockerError::Uncx(UncxLpError::InsufficientReferralBalance),
            )?;
        }
        if let Some(mint) = &self.secondary_token_mint {
            let configured = self.config_account.config.secondary_token_address.unwrap();
            check(*mint == configured, LockerError::Uncx(UncxLpError::InvalidAccountError))?;
        }
        if let Some(wallet) = &self.dev_wallet {
            check(*wallet == self.config_account.config.dev_addr, raw())?;
        }
        Ok(())
    }

    /// A country may lock unless the configuration blacklists it.
    pub fn is_country_allowed(&self, country_code: u8) -> (r: bool)
        ensures
            r == !self.config_account.blacklisted_countries@.contains(country_code),
    {
        self.config_account.is_country_allowed(country_code)
    }

    /// Decodes the metadata of the pool's two tokens and checks it.
    pub fn validate_metadata(&self) -> (r: Result<(TokenMetadata, TokenMetadata), LockerError>)
        requires
            self.amm_info_acc.data@.len() == AMM_INFO_SIZE,
        ensures
            match spec_metadata_error(*self) {
                Some(e) => r == Err::<(TokenMetadata, TokenMetadata), LockerError>(e),
                None => r matches Ok((coin, pc)) && spec_metadata_from_bytes(self.coin_metadata_account.data@) == Some(
                    (coin.mint.bytes@, coin.name@, coin.symbol@),
                ) && spec_metadata_from_bytes(self.pc_metadata_account.data@) == Some(
                    (pc.mint.bytes@, pc.name@, pc.symbol@),
                ),
            },
    {
        let amm_info = AmmInfo::load(self.amm_info_acc.data.as_slice());
        let coin = metadata_from_bytes(self.coin_metadata_account.data.as_slice());
        let pc = metadata_from_bytes(self.pc_metadata_account.data.as_slice());
        proof {
            if coin is Ok && pc is Ok {
                let c = coin->Ok_0;
                let p = pc->Ok_0;
                if c.mint.bytes@ == amm_info.coin_vault_mint.bytes@ {
                    assert(c.mint.bytes =~= amm_info.coin_vault_mint.bytes);
                }
                if p.mint.bytes@ == amm_info.pc_vault_mint.bytes@ {
                    assert(p.mint.bytes =~= amm_info.pc_vault_mint.bytes);
                }
            }
        }
        check_token_metadata(&amm_info, &self.coin_metadata_account.owner, &self.pc_metadata_account.owner, coin, pc)
    }

    /// The pool's vaults and target orders must be the accounts passed.
    pub fn validate_raydium_reserve_calc_accounts(&self, amm_info: &AmmInfo) -> (r: Result<(), LockerError>)
        ensures
            r is Ok <==> reserve_accounts_match(*self, *amm_info),
            r is Err ==> r == Err::<(), LockerError>(LockerError::Uncx(UncxLpError::InvalidRaydiumV4Accounts)),
    {
        check(amm_info.pc_vault == self.pc_vault_token_acc.key, LockerError::Uncx(UncxLpError::InvalidRaydiumV4Accounts))?;
        check(
            amm_info.coin_vault == self.coin_vault_token_acc.key,
            LockerError::Uncx(UncxLpError::InvalidRaydiumV4Accounts),
        )?;
        check(
            amm_info.target_orders == self.amm_target_orders_info_acc.key,
            LockerError::Uncx(UncxLpError::InvalidRaydiumV4Accounts),
        )
    }

    /// Whether reading the reserves of the pool `amm_info` describes stays in range: decides
    /// `reserves_readable`.
    pub fn reserves_are_readable(&self, amm_info: &AmmInfo) -> (r: bool)
        ensures
            r == reserves_readable(*self, *amm_info),
    {
        if self.validate_raydium_reserve_calc_accounts(amm_info).is_err() {
            return true;
        }
        if self.amm_target_orders_info_acc.data.len() != TARGET_ORDERS_SIZE {
            return false;
        }
        let target_orders = TargetOrders::load_unchecked(self.amm_target_orders_info_acc.data.as_slice());
        actual_reserves_in_range(amm_info, &target_orders, self.pc_vault_token_acc.amount, self.coin_vault_token_acc.amount)
    }

    /// The pool's `(lp supply, true pc reserve, true coin reserve)`, read from the accounts passed.
    pub fn checked_calc_raydium_reserves(&self, amm_info: &AmmInfo) -> (r: Result<(u64, u64, u64), LockerError>)
        requires
            reserves_readable(*self, *amm_info),
        ensures
            r == spec_checked_reserves(*self, *amm_info),
    {
        self.validate_raydium_reserve_calc_accounts(amm_info)?;
        let target_orders = TargetOrders::load_unchecked(self.amm_target_orders_info_acc.data.as_slice());
        calc_actual_reserves(amm_info, &target_orders, self.pc_vault_token_acc.amount, self.coin_vault_token_acc.amount)
    }
}

} // verus!
