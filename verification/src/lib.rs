//! Staking of non-fungible tokens for a time-weighted reward.
//!
//! An owner locks an asset under a program-controlled authority, accrues a
//! fungible reward while it stays locked, and later unlocks it again. The
//! crate holds the rules of that protocol as verified functions on plain
//! values; performing the custody changes on a ledger is left to the caller.

pub mod address;
pub mod blocks;
pub mod custody;
pub mod element;
pub mod lifecycle;
pub mod metadata;
pub mod operation;
pub mod record;
pub mod reward;
pub mod staking;

pub use address::Address;
pub use blocks::{get_block, get_blocks_arrays};
pub use metadata::Metadata;
pub use record::{StakeError, StakeState, UserStakeInfo};
pub use reward::get_index;
pub use staking::{redeem, stake, unstake, Redeem, Stake, Unstake};
