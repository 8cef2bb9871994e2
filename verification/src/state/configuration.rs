//! The locker's configuration account: fees, admin, referral settings and the country blacklist.
use vstd::prelude::*;
use crate::constants::MAX_BASIS_POINTS;
use crate::error::{LockerError, UncxLpError};
use crate::pubkey::Pubkey;
use crate::state::search::{first_position, position_u8};

verus! {

/// Fee settings. Basis points: 10000 = 100 %.
#[derive(Clone, Copy, Debug, PartialEq, Eq, Structural)]
pub struct FeesConfig {
    pub native_fee: u64,
    /// fee charged via alternative means, if paid via a secondary token
    pub secondary_token_fee: u64,
    /// discount on liquidity fee for burning the secondary token
    pub secondary_token_discount_bps: u16,
    /// fee on liquidity tokens
    pub liquidity_fee_bps: u16,
    /// fee share for referrals
    pub referral_share_bps: u16,
    /// discount on flat-rate fees for using a valid referral address
    pub referral_discount_bps: u16,
}

/// Global configuration of the locker.
#[derive(Clone, Copy, Debug, PartialEq, Eq)]
pub struct Config {
    pub fee_config: FeesConfig,
    /// balance the referrer must hold to qualify as a referrer
    pub min_referral_balance: u64,
    /// token the referrer must hold to qualify as a referrer
    pub referral_token_address: Option<Pubkey>,
    /// secondary token whose burning earns a discount
    pub secondary_token_address: Option<Pubkey>,
    /// the admin's key
    pub admin_key: Pubkey,
    /// wallet the fees are sent to
    pub dev_addr: Pubkey,
    /// the id the next lock will get
    pub next_locker_unique_id: u64,
}

/// The configuration account.
#[derive(Clone, Debug, PartialEq, Eq)]
pub struct ConfigurationAccount {
    pub config: Config,
    pub bump: u8,
    pub uncx_authority_pda_address: Pubkey,
    pub uncx_authority_bump: u8,
    pub blacklisted_countries: Vec<u8>,
}

/// Whitelist marker: its existence for a signer is the proof that the signer is whitelisted.
#[derive(Clone, Copy, Debug, PartialEq, Eq, Structural)]
pub struct Whitelisted {
    pub bump: u8,
}

/// Migrator marker: its existence for a signer allows that signer to migrate locks.
#[derive(Clone, Copy, Debug, PartialEq, Eq, Structural)]
pub struct Migrator {
    pub bump: u8,
}

/// A basis-point value is at most 100 %.
pub open spec fn valid_bps(bps: u16) -> bool {
    bps <= MAX_BASIS_POINTS
}

/// All four basis-point settings are at most 100 %.
pub open spec fn valid_fees_config(f: FeesConfig) -> bool {
    &&& valid_bps(f.liquidity_fee_bps)
    &&& valid_bps(f.secondary_token_discount_bps)
    &&& valid_bps(f.referral_share_bps)
    &&& valid_bps(f.referral_discount_bps)
}

/// The list after removing the entry at `i` by moving the last entry into its place.
pub open spec fn swap_removed<T>(s: Seq<T>, i: int) -> Seq<T> {
    s.update(i, s.last()).drop_last()
}

impl ConfigurationAccount {
    /// The account's invariant: every basis-point setting is at most 100 %.
    pub open spec fn wf(&self) -> bool {
        valid_fees_config(self.config.fee_config)
    }
}

impl FeesConfig {
    /// Refuses any basis-point setting above 100 %.
    pub fn basis_points_sanity_check(&self) -> (r: Result<(), LockerError>)
        ensures
            r is Ok <==> valid_fees_config(*self),
            r is Err ==> r == Err::<(), LockerError>(LockerError::Uncx(UncxLpError::InvalidPercentage)),
    {
        Self::basis_points_validate(self.liquidity_fee_bps)?;
        Self::basis_points_validate(self.secondary_token_discount_bps)?;
        Self::basis_points_validate(self.referral_share_bps)?;
        Self::basis_points_validate(self.referral_discount_bps)?;
        Ok(())
    }

    /// Refuses a basis-point value above 100 %.
    pub fn basis_points_validate(percentage_val: u16) -> (r: Result<(), LockerError>)
        ensures
            r is Ok <==> valid_bps(percentage_val),
            r is Err ==> r == Err::<(), LockerError>(LockerError::Uncx(UncxLpError::InvalidPercentage)),
    {
        if percentage_val <= MAX_BASIS_POINTS {
            Ok(())
        } else {
            Err(LockerError::Uncx(UncxLpError::InvalidPercentage))
        }
    }
}

impl ConfigurationAccount {
    /// A country may lock unless it is on the blacklist.
    pub fn is_country_allowed(&self, country_code: u8) -> (r: bool)
        ensures
            r == !self.blacklisted_countries@.contains(country_code),
    {
        position_u8(&self.blacklisted_countries, country_code).is_none()
    }

    /// Appends a country to the blacklist; refuses one that is already there.
    pub fn add_country_to_blacklist(&mut self, country_code_to_add: u8) -> (r: Result<(), LockerError>)
        ensures
            r is Ok <==> !old(self).blacklisted_countries@.contains(country_code_to_add),
            r is Ok ==> final(self).blacklisted_countries@
                == old(self).blacklisted_countries@.push(country_code_to_add),
            r is Err ==> r == Err::<(), LockerError>(LockerError::Uncx(UncxLpError::CountryCodeAlreadyExists))
                && final(self).blacklisted_countries@ == old(self).blacklisted_countries@,
            final(self).config == old(self).config,
            final(self).bump == old(self).bump,
            final(self).uncx_authority_pda_address == old(self).uncx_authority_pda_address,
            final(self).uncx_authority_bump == old(self).uncx_authority_bump,
    {
        if position_u8(&self.blacklisted_countries, country_code_to_add).is_some() {
            return Err(LockerError::Uncx(UncxLpError::CountryCodeAlreadyExists));
        }
        self.blacklisted_countries.push(country_code_to_add);
        Ok(())
    }

    /// Removes the first occurrence of a country from the blacklist (the last entry takes its
    /// place); refuses a country that is not there.
    pub fn remove_country_from_blacklist(&mut self, country_code_to_remove: u8) -> (r: Result<(), LockerError>)
        ensures
            r is Ok <==> old(self).blacklisted_countries@.contains(country_code_to_remove),
            r is Ok ==> final(self).blacklisted_countries@ == swap_removed(
                old(self).blacklisted_countries@,
                first_position(old(self).blacklisted_countries@, country_code_to_remove),
            ),
            r is Err ==> r == Err::<(), LockerError>(LockerError::Uncx(UncxLpError::CountryCodeNotPresent))
                && final(self).blacklisted_countries@ == old(self).blacklisted_countries@,
            final(self).config == old(self).config,
            final(self).bump == old(self).bump,
            final(self).uncx_authority_pda_address == old(self).uncx_authority_pda_address,
            final(self).uncx_authority_bump == old(self).uncx_authority_bump,
    {
        match position_u8(&self.blacklisted_countries, country_code_to_remove) {
            None => Err(LockerError::Uncx(UncxLpError::CountryCodeNotPresent)),
            Some(idx) => {
                self.blacklisted_countries.swap_remove(idx);
                Ok(())
            },
        }
    }

    /// The id the next lock will get.
    pub fn get_next_locker_id(&self) -> (r: u64)
        ensures
            r == self.config.next_locker_unique_id,
    {
        self.config.next_locker_unique_id
    }

    /// Sets the wallet fees are paid to.
    pub fn set_developer_address(&mut self, new_fee_wallet_address: Pubkey)
        ensures
            *final(self) == (ConfigurationAccount {
                config: Config { dev_addr: new_fee_wallet_address, ..old(self).config },
                ..*old(self)
            }),
    {
        self.config.dev_addr = new_fee_wallet_address;
    }

    /// Sets the admin key.
    pub fn set_new_admin(&mut self, new_admin_address: Pubkey)
        ensures
            *final(self) == (ConfigurationAccount {
                config: Config { admin_key: new_admin_address, ..old(self).config },
                ..*old(self)
            }),
    {
        self.config.admin_key = new_admin_address;
    }

    /// Sets (or clears) the secondary fee token.
    pub fn set_secondary_fee_token(&mut self, new_secondary_fee_token: Option<Pubkey>)
        ensures
            *final(self) == (ConfigurationAccount {
                config: Config { secondary_token_address: new_secondary_fee_token, ..old(self).config },
                ..*old(self)
            }),
    {
        self.config.secondary_token_address = new_secondary_fee_token;
    }

    /// Sets (or clears) the referral token.
    pub fn set_referral_token_address(&mut self, new_referral_token_address: Option<Pubkey>)
        ensures
            *final(self) == (ConfigurationAccount {
                config: Config { referral_token_address: new_referral_token_address, ..old(self).config },
                ..*old(self)
            }),
    {
        self.config.referral_token_address = new_referral_token_address;
    }

    /// Replaces the fee settings after checking their basis points.
    pub fn set_fees_config(&mut self, new_fees_data: FeesConfig) -> (r: Result<(), LockerError>)
        ensures
            r is Ok <==> valid_fees_config(new_fees_data),
            r is Ok ==> *final(self) == (ConfigurationAccount {
                config: Config { fee_config: new_fees_data, ..old(self).config },
                ..*old(self)
            }),
            r is Err ==> r == Err::<(), LockerError>(LockerError::Uncx(UncxLpError::InvalidPercentage))
                && *final(self) == *old(self),
    {
        FeesConfig::basis_points_sanity_check(&new_fees_data)?;
        self.config.fee_config = new_fees_data;
        Ok(())
    }

    /// Sets the referral token and the balance a referrer must hold.
    pub fn set_referral_token_and_min_hold_balance(
        &mut self,
        new_referral_token_address: Option<Pubkey>,
        new_min_hold_balance: u64,
    )
        ensures
            *final(self) == (ConfigurationAccount {
                config: Config {
                    referral_token_address: new_referral_token_address,
                    min_referral_balance: new_min_hold_balance,
                    ..old(self).config
                },
                ..*old(self)
            }),
    {
        self.config.referral_token_address = new_referral_token_address;
        self.config.min_referral_balance = new_min_hold_balance;
    }
}

} // verus!
