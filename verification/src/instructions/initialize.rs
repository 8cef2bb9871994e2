//! Creating the locker's configuration.
use vstd::prelude::*;
use crate::accounts_ix::initialize_ix::{InitializeConfig, InitializeConfigBumps};
use crate::error::{FrameworkError, LockerError, UncxLpError};
use crate::state::configuration::{valid_fees_config, Config, FeesConfig};

verus! {

/// The blacklist a configuration starts with: the given countries, or none.
pub open spec fn spec_initial_blacklist(initial_black_listed_countries: Option<[u8; 10]>) -> Seq<u8> {
    match initial_black_listed_countries {
        Some(countries) => countries@,
        None => Seq::empty(),
    }
}

/// What `handle_initialize_config` does: the accounts before (`o`) and after (`f`), and its result.
pub open spec fn initialize_config_effect(
    o: InitializeConfig,
    f: InitializeConfig,
    r: Result<(), LockerError>,
    bumps: InitializeConfigBumps,
    initial_config: Config,
    initial_black_listed_countries: Option<[u8; 10]>,
) -> bool {
    &&& r is Ok <==> initial_config.next_locker_unique_id == 0 && valid_fees_config(initial_config.fee_config)
    &&& initial_config.next_locker_unique_id != 0 ==> r == Err::<(), LockerError>(
        LockerError::Framework(FrameworkError::RequireEqViolated),
        )
    &&& initial_config.next_locker_unique_id == 0 && !valid_fees_config(initial_config.fee_config) ==> r == Err::<
        (),
        LockerError,
        >(LockerError::Uncx(UncxLpError::InvalidPercentage))
    &&& r is Err ==> f.config_account == o.config_account
    &&& r is Ok ==> {
        &&& f.config_account.config == initial_config
        &&& f.config_account.bump == bumps.config_account
        &&& f.config_account.uncx_authority_pda_address == o.uncx_authority_acc
        &&& f.config_account.uncx_authority_bump == bumps.uncx_authority_acc
        &&& f.config_account.blacklisted_countries@ == spec_initial_blacklist(initial_black_listed_countries)
        &&& f.config_account.wf()
        }
    &&& f.payer == o.payer
    &&& f.initial_admin == o.initial_admin
    &&& f.uncx_authority_acc == o.uncx_authority_acc
}

/// Stores the initial configuration, whose lock ids must start at zero and whose fee settings
/// must be at most 100 %, with the bump seeds, the locker's authority address and the initial
/// blacklist (at most ten countries).
pub fn handle_initialize_config(
    accs: &mut InitializeConfig,
    bumps: InitializeConfigBumps,
    initial_config: Config,
    initial_black_listed_countries: Option<[u8; 10]>,
) -> (r: Result<(), LockerError>)
    ensures
        initialize_config_effect(*old(accs), *final(accs), r, bumps, initial_config, initial_black_listed_countries),
{
    if initial_config.next_locker_unique_id != 0 {
        return Err(LockerError::Framework(FrameworkError::RequireEqViolated));
    }
    FeesConfig::basis_points_sanity_check(&initial_config.fee_config)?;
    accs.config_account.config = initial_config;
    accs.config_account.bump = bumps.config_account;
    accs.config_account.uncx_authority_pda_address = accs.uncx_authority_acc;
    accs.config_account.uncx_authority_bump = bumps.uncx_authority_acc;
    let blacklisted_countries: Vec<u8> = match initial_black_listed_countries {
        Some(c) => {
            let v = vec![c[0], c[1], c[2], c[3], c[4], c[5], c[6], c[7], c[8], c[9]];
            assert(v@ =~= c@);
            v
        },
        None => Vec::new(),
    };
    accs.config_account.blacklisted_countries = blacklisted_countries;
    Ok(())
}

} // verus!
