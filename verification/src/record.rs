//! The stake record kept for each pair of owner and asset account, and the
//! errors with which an operation on it is refused.

use vstd::prelude::*;
use crate::address::Address;

verus! {

/// The lifecycle state of a stake record.
#[derive(Debug, PartialEq, Eq, Structural, Clone, Copy)]
pub enum StakeState {
    Unstaked,
    Staked,
}

impl Default for StakeState {
    fn default() -> (state: Self)
        ensures
            state == StakeState::Unstaked,
    {
        StakeState::Unstaked
    }
}

/// The persistent record of one owner's stake of one asset.
///
/// It is created by the first stake, updated in place by every later
/// operation and never deleted, so that it serves any number of stake cycles.
#[derive(Debug, PartialEq, Eq, Clone, Copy)]
pub struct UserStakeInfo {
    /// The custodial account that holds the staked asset.
    pub token_account: Address,
    /// The ledger time at which the asset was last staked.
    pub stake_start_time: i64,
    /// The ledger time up to which the reward has been paid out.
    pub last_stake_redeem: i64,
    /// The owner who staked the asset.
    pub user_pubkey: Address,
    pub stake_state: StakeState,
    /// Set by the first stake; guards against use of an untouched record.
    pub is_initialized: bool,
}

impl UserStakeInfo {
    /// The record as the ledger hands it out before its first stake: all
    /// zero, unstaked and not initialized.
    pub open spec fn is_blank(self) -> bool {
        &&& self.token_account@ == Seq::new(32, |i: int| 0u8)
        &&& self.user_pubkey@ == Seq::new(32, |i: int| 0u8)
        &&& self.stake_start_time == 0
        &&& self.last_stake_redeem == 0
        &&& self.stake_state == StakeState::Unstaked
        &&& !self.is_initialized
    }

    /// Whether the asset of this record is locked at present.
    pub open spec fn is_staked(self) -> bool {
        self.is_initialized && self.stake_state == StakeState::Staked
    }
}

impl Default for UserStakeInfo {
    fn default() -> (record: Self)
        ensures
            record.is_blank(),
    {
        UserStakeInfo {
            token_account: Address::zero(),
            stake_start_time: 0,
            last_stake_redeem: 0,
            user_pubkey: Address::zero(),
            stake_state: StakeState::Unstaked,
            is_initialized: false,
        }
    }
}

/// Why an operation was refused.
///
/// The first three name a request made in the wrong lifecycle state, the last
/// two an asset whose description does not yield a reward category.
#[derive(Debug, PartialEq, Eq, Structural, Clone, Copy)]
pub enum StakeError {
    AlreadyStaked,
    UninitializedAccount,
    InvalidStakeState,
    InvalidElementName,
    InvalidBlockData,
}

impl StakeError {
    /// The text shown to the caller for this error.
    pub fn message(&self) -> (text: &'static str)
        ensures
            text@ == match *self {
                StakeError::AlreadyStaked => "NFT already staked"@,
                StakeError::UninitializedAccount => "State account is uninitialized"@,
                StakeError::InvalidStakeState => "Stake state is invalid"@,
                StakeError::InvalidElementName => "Invalid element name"@,
                StakeError::InvalidBlockData => "Invalid block data"@,
            },
    {
        match self {
            StakeError::AlreadyStaked => "NFT already staked",
            StakeError::UninitializedAccount => "State account is uninitialized",
            StakeError::InvalidStakeState => "Stake state is invalid",
            StakeError::InvalidElementName => "Invalid element name",
            StakeError::InvalidBlockData => "Invalid block data",
        }
    }
}

} // verus!
