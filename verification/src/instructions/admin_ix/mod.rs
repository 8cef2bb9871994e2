//! The admin's instructions: markers for migrators and whitelisted lockers, and changes to the
//! configuration.
pub mod add_migrator;
pub mod add_whitelist;
pub mod blacklist_management;
pub mod change_owner;
pub mod set_dev;
pub mod set_fees;
pub mod set_referral_token_hold;
pub mod set_secondary_token;
