//! The staking state machine: the three requests that an owner can make for
//! an asset, and how each is carried out.
//!
//! A request is first decided on the stake record alone: it is refused, or it
//! yields a pending operation, which holds the record as it shall stand
//! afterwards and the actions that have to succeed before. The caller performs
//! the actions one by one and reports each outcome. The record is handed out
//! for storing only when the last action has succeeded; a failure ends the
//! operation with the failure and without a record.

use vstd::prelude::*;
use crate::address::Address;
use crate::blocks::{block_of, blocks_partition, get_block};
use crate::custody::{Action, DELEGATED_AMOUNT};
use crate::element::{atomic_number, atomic_number_of};
use crate::metadata::{asset_name, asset_name_of, MetadataAccount, MetadataError};
use crate::operation::Pending;
use crate::record::{StakeError, StakeState, UserStakeInfo};
use crate::reward::{
    block_reward, block_reward_of, factor_of, payable_reward, reward, reward_monotonic,
    DAILY_RATE, SECONDS_PER_DAY,
};

verus! {

/// What a request to stake refers to.
#[derive(Debug, PartialEq, Eq, Clone, Copy)]
pub struct Stake {
    /// The owner who asks.
    pub user: Address,
    /// The owner's account that holds the asset.
    pub nft_token_account: Address,
    /// The mint of the asset.
    pub nft_mint: Address,
    /// The edition record of the asset, through which its mint is frozen.
    pub nft_edition: Address,
    /// The stake record of this owner and asset account.
    pub stake_state: UserStakeInfo,
    /// The program's custody authority.
    pub program_authority: Address,
    /// The byte that completes the seeds of the custody authority.
    pub program_authority_bump: u8,
}

/// What a request to redeem refers to.
#[derive(Debug, PartialEq, Eq, Clone)]
pub struct Redeem {
    /// The owner who asks.
    pub user: Address,
    /// The owner's account that holds the asset.
    pub nft_token_account: Address,
    /// The stake record of this owner and asset account.
    pub stake_state: UserStakeInfo,
    /// The mint of the reward token.
    pub stake_mint: Address,
    /// The program's authority over the mint of the reward token.
    pub stake_authority: Address,
    /// The byte that completes the seeds of the mint authority.
    pub stake_authority_bump: u8,
    /// The owner's account of the reward token.
    pub user_stake_ata: Address,
    /// The metadata account of the asset.
    pub mint_metadata: MetadataAccount,
}

/// What a request to unstake refers to.
#[derive(Debug, PartialEq, Eq, Clone)]
pub struct Unstake {
    /// The owner who asks.
    pub user: Address,
    /// The owner's account that holds the asset.
    pub nft_token_account: Address,
    /// The mint of the asset.
    pub nft_mint: Address,
    /// The edition record of the asset, through which its mint is thawed.
    pub nft_edition: Address,
    /// The stake record of this owner and asset account.
    pub stake_state: UserStakeInfo,
    /// The program's custody authority.
    pub program_authority: Address,
    /// The byte that completes the seeds of the custody authority.
    pub program_authority_bump: u8,
    /// The mint of the reward token.
    pub stake_mint: Address,
    /// The program's authority over the mint of the reward token.
    pub stake_authority: Address,
    /// The byte that completes the seeds of the mint authority.
    pub stake_authority_bump: u8,
    /// The owner's account of the reward token.
    pub user_stake_ata: Address,
    /// The metadata account of the asset.
    pub mint_metadata: MetadataAccount,
}

/// Why a request was refused before any action was taken.
#[derive(Debug, PartialEq, Eq, Structural, Clone, Copy)]
pub enum OperationError {
    /// The record or the asset's name does not allow the request.
    Stake(StakeError),
    /// The asset's metadata account does not yield a name.
    Metadata(MetadataError),
}

/// The actions of a stake, in order: the owner delegates the one token of the
/// asset account to the custody authority, and the authority has the account
/// frozen. The delegation comes first, since only a delegate may freeze.
pub open spec fn stake_plan(ctx: Stake) -> Seq<Action> {
    seq![
        Action::Approve {
            account: ctx.nft_token_account,
            delegate: ctx.program_authority,
            owner: ctx.user,
            amount: DELEGATED_AMOUNT,
        },
        Action::Freeze {
            delegate: ctx.program_authority,
            bump: ctx.program_authority_bump,
            account: ctx.nft_token_account,
            edition: ctx.nft_edition,
            mint: ctx.nft_mint,
        },
    ]
}

/// The one action of a redemption: the mint authority has `amount` of the
/// reward token minted to the owner's account.
pub open spec fn redeem_plan(ctx: Redeem, amount: u64) -> Seq<Action> {
    seq![
        Action::Mint {
            mint: ctx.stake_mint,
            to: ctx.user_stake_ata,
            authority: ctx.stake_authority,
            bump: ctx.stake_authority_bump,
            amount,
        },
    ]
}

/// The actions of an unstake, in order: the reward is minted as in a
/// redemption, the custody authority has the asset account thawed, and the
/// owner revokes the delegation. The thawing comes before the revocation,
/// since only a delegate may thaw.
pub open spec fn unstake_plan(ctx: Unstake, amount: u64) -> Seq<Action> {
    seq![
        Action::Mint {
            mint: ctx.stake_mint,
            to: ctx.user_stake_ata,
            authority: ctx.stake_authority,
            bump: ctx.stake_authority_bump,
            amount,
        },
        Action::Thaw {
            delegate: ctx.program_authority,
            bump: ctx.program_authority_bump,
            account: ctx.nft_token_account,
            edition: ctx.nft_edition,
            mint: ctx.nft_mint,
        },
        Action::Revoke { account: ctx.nft_token_account, owner: ctx.user },
    ]
}

/// Whether a record allows redeeming or unstaking: it has been staked before,
/// and it is staked now. An untouched record is reported before one that is
/// unstaked.
pub open spec fn readiness(record: UserStakeInfo) -> Result<(), StakeError> {
    if !record.is_initialized {
        Err(StakeError::UninitializedAccount)
    } else if record.stake_state != StakeState::Staked {
        Err(StakeError::InvalidStakeState)
    } else {
        Ok(())
    }
}

/// The record after `user` has staked the asset in `token_account` at `now`.
pub open spec fn staked_record(user: Address, token_account: Address, now: i64) -> UserStakeInfo {
    UserStakeInfo {
        token_account,
        stake_start_time: now,
        last_stake_redeem: now,
        user_pubkey: user,
        stake_state: StakeState::Staked,
        is_initialized: true,
    }
}

/// The record after a request to stake, or the refusal: `AlreadyStaked`
/// unless the record is unstaked.
pub open spec fn stake_outcome(
    record: UserStakeInfo,
    user: Address,
    token_account: Address,
    now: i64,
) -> Result<UserStakeInfo, StakeError> {
    if record.stake_state == StakeState::Unstaked {
        Ok(staked_record(user, token_account, now))
    } else {
        Err(StakeError::AlreadyStaked)
    }
}

/// The reward that an asset named `name` has earned between `last_redeem`
/// and `now`, or the refusal: `InvalidElementName` where the name carries no
/// atomic number or one that lies in no block. The reward is that of the
/// asset's block for the time since the last redemption.
pub open spec fn reward_due_of(last_redeem: i64, name: Seq<char>, now: i64) -> Result<
    u64,
    StakeError,
> {
    match atomic_number_of(name) {
        Err(error) => Err(error),
        Ok(number) => match block_of(number) {
            None => Err(StakeError::InvalidElementName),
            Some((weight, len)) => block_reward_of(
                (now - last_redeem) as u64,
                weight,
                len,
                now as int,
            ),
        },
    }
}

/// The record and the reward after a request to redeem for an asset named
/// `name`, or the refusal. The record is checked first, then the name.
pub open spec fn redeem_outcome(record: UserStakeInfo, name: Seq<char>, now: i64) -> Result<
    (UserStakeInfo, u64),
    StakeError,
> {
    match readiness(record) {
        Err(error) => Err(error),
        Ok(_) => match reward_due_of(record.last_stake_redeem, name, now) {
            Err(error) => Err(error),
            Ok(amount) => Ok((UserStakeInfo { last_stake_redeem: now, ..record }, amount)),
        },
    }
}

/// The record and the reward after a request to unstake an asset named
/// `name`, or the refusal. The record is checked first, then the name.
pub open spec fn unstake_outcome(record: UserStakeInfo, name: Seq<char>, now: i64) -> Result<
    (UserStakeInfo, u64),
    StakeError,
> {
    match redeem_outcome(record, name, now) {
        Err(error) => Err(error),
        Ok((redeemed, amount)) => Ok(
            (UserStakeInfo { stake_state: StakeState::Unstaked, ..redeemed }, amount),
        ),
    }
}

/// The outcome of a request on the record, preceded by the reading of the
/// asset's name from its metadata account: the record is checked first, then
/// the account, then the name.
pub open spec fn with_metadata(
    record: UserStakeInfo,
    account: MetadataAccount,
    outcome: spec_fn(Seq<char>) -> Result<(UserStakeInfo, u64), StakeError>,
) -> Result<(UserStakeInfo, u64), OperationError> {
    match readiness(record) {
        Err(error) => Err(OperationError::Stake(error)),
        Ok(_) => match asset_name_of(account) {
            Err(error) => Err(OperationError::Metadata(error)),
            Ok(name) => match outcome(name) {
                Err(error) => Err(OperationError::Stake(error)),
                Ok(settled) => Ok(settled),
            },
        },
    }
}

/// Every block has the size of a block, so its factor can be looked up, and
/// a weight of at least ten, so that no reward outgrows the token's amounts.
proof fn lemma_block_pays(number: u8, weight: u8, len: u8, elapsed: u64, now: int)
    requires
        block_of(number) == Some((weight, len)),
    ensures
        factor_of(len, now) is Ok,
        payable_reward(elapsed, factor_of(len, now)->Ok_0, weight) == Some(
            reward(elapsed as int, factor_of(len, now)->Ok_0 as int, weight as int) as u64,
        ),
{
    let factor = factor_of(len, now)->Ok_0;
    let days_rate = DAILY_RATE * elapsed / SECONDS_PER_DAY as int;
    let ratio = factor as int / weight as int;
    assert(0 <= ratio <= 25) by {
        if weight == 10 {
            assert(ratio == factor as int / 10);
        } else if weight == 20 {
            assert(ratio == factor as int / 20);
        } else if weight == 30 {
            assert(ratio == factor as int / 30);
        } else {
            assert(ratio == factor as int / 40);
        }
    }
    assert(days_rate * ratio <= 213503982334601292 * 25) by (nonlinear_arith)
        requires
            0 <= days_rate <= 213503982334601292,
            0 <= ratio <= 25,
    ;
}

/// Decides a request to stake.
///
/// It is refused with `AlreadyStaked` unless the record is unstaked, which an
/// untouched record is. Accepted, it delegates and freezes the asset account
/// before the record is stored as staked at `now`, by this owner and for this
/// asset account.
pub fn stake(ctx: &Stake, now: i64) -> (decision: Result<Pending, StakeError>)
    ensures
        match stake_outcome(ctx.stake_state, ctx.user, ctx.nft_token_account, now) {
            Ok(record) => decision matches Ok(pending) && pending.begins(stake_plan(*ctx), record),
            Err(error) => decision matches Err(refusal) && refusal == error,
        },
{
    match ctx.stake_state.stake_state {
        StakeState::Staked => Err(StakeError::AlreadyStaked),
        StakeState::Unstaked => {
            let actions: Vec<Action> = vec![
                Action::Approve {
                    account: ctx.nft_token_account,
                    delegate: ctx.program_authority,
                    owner: ctx.user,
                    amount: DELEGATED_AMOUNT,
                },
                Action::Freeze {
                    delegate: ctx.program_authority,
                    bump: ctx.program_authority_bump,
                    account: ctx.nft_token_account,
                    edition: ctx.nft_edition,
                    mint: ctx.nft_mint,
                },
            ];
            assert(actions@ =~= stake_plan(*ctx));
            let record = UserStakeInfo {
                token_account: ctx.nft_token_account,
                stake_start_time: now,
                last_stake_redeem: now,
                user_pubkey: ctx.user,
                stake_state: StakeState::Staked,
                is_initialized: true,
            };
            Ok(Pending::begin(actions, record))
        },
    }
}

/// Whether a record allows redeeming or unstaking.
pub fn check_staked(record: &UserStakeInfo) -> (ready: Result<(), StakeError>)
    ensures
        ready == readiness(*record),
{
    if !record.is_initialized {
        Err(StakeError::UninitializedAccount)
    } else {
        match record.stake_state {
            StakeState::Staked => Ok(()),
            StakeState::Unstaked => Err(StakeError::InvalidStakeState),
        }
    }
}

/// The reward that an asset named `name` has earned between `last_redeem`
/// and `now`.
///
/// The ledger time does not run backwards, so `now` is not before
/// `last_redeem`.
pub fn reward_due(last_redeem: i64, name: &str, now: i64) -> (due: Result<u64, StakeError>)
    requires
        last_redeem <= now,
    ensures
        due == reward_due_of(last_redeem, name@, now),
{
    let number = match atomic_number(name) {
        Ok(number) => number,
        Err(error) => {
            return Err(error);
        },
    };
    let (weight, len) = match get_block(number) {
        Some(block) => block,
        None => {
            return Err(StakeError::InvalidElementName);
        },
    };
    let elapsed: u64 = (now as i128 - last_redeem as i128) as u64;
    block_reward(elapsed, weight, len, now)
}

/// Decides a request to redeem for an asset of the given name, whatever the
/// request's metadata account holds.
///
/// It is refused with `UninitializedAccount` for a record that was never
/// staked, with `InvalidStakeState` for one that is unstaked, and with
/// `InvalidElementName` where the name yields no block. Accepted, it has the
/// reward minted before the record is stored with `now` as the time of the
/// last redemption.
///
/// The ledger time does not run backwards: for a staked record, `now` is not
/// before the last redemption.
pub fn redeem_by_name(ctx: &Redeem, name: &str, now: i64) -> (decision: Result<
    Pending,
    StakeError,
>)
    requires
        ctx.stake_state.is_staked() ==> ctx.stake_state.last_stake_redeem <= now,
    ensures
        match redeem_outcome(ctx.stake_state, name@, now) {
            Ok((updated, amount)) => decision matches Ok(pending) && pending.begins(
                redeem_plan(*ctx, amount),
                updated,
            ),
            Err(error) => decision matches Err(refusal) && refusal == error,
        },
{
    let record = &ctx.stake_state;
    match check_staked(record) {
        Err(error) => {
            return Err(error);
        },
        Ok(_) => {},
    }
    match reward_due(record.last_stake_redeem, name, now) {
        Err(error) => Err(error),
        Ok(amount) => {
            let actions: Vec<Action> = vec![
                Action::Mint {
                    mint: ctx.stake_mint,
                    to: ctx.user_stake_ata,
                    authority: ctx.stake_authority,
                    bump: ctx.stake_authority_bump,
                    amount,
                },
            ];
            assert(actions@ =~= redeem_plan(*ctx, amount));
            let updated = UserStakeInfo {
                token_account: record.token_account,
                stake_start_time: record.stake_start_time,
                last_stake_redeem: now,
                user_pubkey: record.user_pubkey,
                stake_state: record.stake_state,
                is_initialized: record.is_initialized,
            };
            Ok(Pending::begin(actions, updated))
        },
    }
}

/// Decides a request to unstake an asset of the given name, whatever the
/// request's metadata account holds.
///
/// It is refused as a request to redeem is. Accepted, it has the reward
/// minted, the asset account thawed and the delegation revoked before the
/// record is stored as unstaked, with `now` as the time of the last
/// redemption.
///
/// The ledger time does not run backwards: for a staked record, `now` is not
/// before the last redemption.
pub fn unstake_by_name(ctx: &Unstake, name: &str, now: i64) -> (decision: Result<
    Pending,
    StakeError,
>)
    requires
        ctx.stake_state.is_staked() ==> ctx.stake_state.last_stake_redeem <= now,
    ensures
        match unstake_outcome(ctx.stake_state, name@, now) {
            Ok((updated, amount)) => decision matches Ok(pending) && pending.begins(
                unstake_plan(*ctx, amount),
                updated,
            ),
            Err(error) => decision matches Err(refusal) && refusal == error,
        },
{
    let record = &ctx.stake_state;
    match check_staked(record) {
        Err(error) => {
            return Err(error);
        },
        Ok(_) => {},
    }
    match reward_due(record.last_stake_redeem, name, now) {
        Err(error) => Err(error),
        Ok(amount) => {
            let actions: Vec<Action> = vec![
                Action::Mint {
                    mint: ctx.stake_mint,
                    to: ctx.user_stake_ata,
                    authority: ctx.stake_authority,
                    bump: ctx.stake_authority_bump,
                    amount,
                },
                Action::Thaw {
                    delegate: ctx.program_authority,
                    bump: ctx.program_authority_bump,
                    account: ctx.nft_token_account,
                    edition: ctx.nft_edition,
                    mint: ctx.nft_mint,
                },
                Action::Revoke { account: ctx.nft_token_account, owner: ctx.user },
            ];
            assert(actions@ =~= unstake_plan(*ctx, amount));
            let updated = UserStakeInfo {
                token_account: record.token_account,
                stake_start_time: record.stake_start_time,
                last_stake_redeem: now,
                user_pubkey: record.user_pubkey,
                stake_state: StakeState::Unstaked,
                is_initialized: record.is_initialized,
            };
            Ok(Pending::begin(actions, updated))
        },
    }
}

/// Decides a request to redeem.
///
/// The record is checked first. Then the asset's name is read from its
/// metadata account, which fails where the account holds no metadata record
/// or belongs to another program. The name then decides as in
/// `redeem_by_name`.
pub fn redeem(ctx: &Redeem, now: i64) -> (decision: Result<Pending, OperationError>)
    requires
        ctx.stake_state.is_staked() ==> ctx.stake_state.last_stake_redeem <= now,
    ensures
        match with_metadata(
            ctx.stake_state,
            ctx.mint_metadata,
            |name: Seq<char>| redeem_outcome(ctx.stake_state, name, now),
        ) {
            Ok((updated, amount)) => decision matches Ok(pending) && pending.begins(
                redeem_plan(*ctx, amount),
                updated,
            ),
            Err(error) => decision matches Err(refusal) && refusal == error,
        },
{
    match check_staked(&ctx.stake_state) {
        Err(error) => {
            return Err(OperationError::Stake(error));
        },
        Ok(_) => {},
    }
    let name = match asset_name(&ctx.mint_metadata) {
        Ok(name) => name,
        Err(error) => {
            return Err(OperationError::Metadata(error));
        },
    };
    match redeem_by_name(ctx, name.as_str(), now) {
        Ok(pending) => Ok(pending),
        Err(error) => Err(OperationError::Stake(error)),
    }
}

/// Decides a request to unstake.
///
/// The record is checked first. Then the asset's name is read from its
/// metadata account, which fails where the account holds no metadata record
/// or belongs to another program. The name then decides as in
/// `unstake_by_name`.
pub fn unstake(ctx: &Unstake, now: i64) -> (decision: Result<Pending, OperationError>)
    requires
        ctx.stake_state.is_staked() ==> ctx.stake_state.last_stake_redeem <= now,
    ensures
        match with_metadata(
            ctx.stake_state,
            ctx.mint_metadata,
            |name: Seq<char>| unstake_outcome(ctx.stake_state, name, now),
        ) {
            Ok((updated, amount)) => decision matches Ok(pending) && pending.begins(
                unstake_plan(*ctx, amount),
                updated,
            ),
            Err(error) => decision matches Err(refusal) && refusal == error,
        },
{
    match check_staked(&ctx.stake_state) {
        Err(error) => {
            return Err(OperationError::Stake(error));
        },
        Ok(_) => {},
    }
    let name = match asset_name(&ctx.mint_metadata) {
        Ok(name) => name,
        Err(error) => {
            return Err(OperationError::Metadata(error));
        },
    };
    match unstake_by_name(ctx, name.as_str(), now) {
        Ok(pending) => Ok(pending),
        Err(error) => Err(OperationError::Stake(error)),
    }
}

/// A name that yields a block always yields a factor: the lookup of the
/// factor never fails on what the classifier hands it, so `InvalidBlockData`
/// is the answer to no request.
pub proof fn block_data_is_always_valid(last_redeem: i64, name: Seq<char>, now: i64)
    ensures
        reward_due_of(last_redeem, name, now) != Err::<u64, StakeError>(StakeError::InvalidBlockData),
        reward_due_of(last_redeem, name, now) is Ok <==> (atomic_number_of(name) matches Ok(number)
            && 1 <= number <= 119),
{
    match atomic_number_of(name) {
        Ok(number) => {
            blocks_partition(number);
            match block_of(number) {
                Some((weight, len)) => lemma_block_pays(
                    number,
                    weight,
                    len,
                    (now - last_redeem) as u64,
                    now as int,
                ),
                None => {},
            }
        },
        Err(_) => {},
    }
}

/// The longer ago the last redemption, the greater the reward that is due
/// now, or the same: for one asset and one ledger time, the reward does not
/// shrink as the time since the last redemption grows.
pub proof fn reward_due_grows_with_time(earlier: i64, later: i64, name: Seq<char>, now: i64)
    requires
        earlier <= later <= now,
    ensures
        reward_due_of(later, name, now) is Ok <==> reward_due_of(earlier, name, now) is Ok,
        reward_due_of(later, name, now) matches Ok(less) ==> less <= reward_due_of(
            earlier,
            name,
            now,
        )->Ok_0,
{
    match atomic_number_of(name) {
        Ok(number) => match block_of(number) {
            Some((weight, len)) => {
                lemma_block_pays(number, weight, len, (now - later) as u64, now as int);
                lemma_block_pays(number, weight, len, (now - earlier) as u64, now as int);
                let factor = factor_of(len, now as int)->Ok_0;
                reward_monotonic(now - later, now - earlier, factor as int, weight as int);
            },
            None => {},
        },
        Err(_) => {},
    }
}

impl Redeem {
    /// Whether the record is the one of this request's owner and asset
    /// account.
    pub open spec fn is_for_record(self) -> bool {
        self.user == self.stake_state.user_pubkey && self.nft_token_account
            == self.stake_state.token_account
    }

    /// Whether the record is the one of this request's owner and asset
    /// account.
    pub fn matches_record(&self) -> (matches: bool)
        ensures
            matches == self.is_for_record(),
    {
        self.user == self.stake_state.user_pubkey && self.nft_token_account
            == self.stake_state.token_account
    }
}

impl Unstake {
    /// Whether the record is the one of this request's owner and asset
    /// account.
    pub open spec fn is_for_record(self) -> bool {
        self.user == self.stake_state.user_pubkey && self.nft_token_account
            == self.stake_state.token_account
    }

    /// Whether the record is the one of this request's owner and asset
    /// account.
    pub fn matches_record(&self) -> (matches: bool)
        ensures
            matches == self.is_for_record(),
    {
        self.user == self.stake_state.user_pubkey && self.nft_token_account
            == self.stake_state.token_account
    }
}

} // verus!
