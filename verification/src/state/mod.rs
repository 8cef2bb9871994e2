//! Account data of the locker: configuration, locks and per-user tracking.
pub mod configuration;
pub mod events;
pub mod search;
pub mod token_lock;
pub mod user_info;
