//! The instruction handlers: what each instruction does to the accounts once they have passed
//! their constraints.
pub mod admin_ix;
pub mod increment_lock_lp;
pub mod initialize;
pub mod lock_lp;
pub mod migrate;
pub mod relock;
pub mod split_lock;
pub mod transfer_lock_ownership;
pub mod withdraw_lp;
