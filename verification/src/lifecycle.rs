//! What holds of a stake record over its whole life.
//!
//! A record goes from unstaked to staked and back, any number of times, and
//! redeeming leaves it staked. The laws below are stated over the outcomes
//! that the requests are decided by, and over histories of requests.

use vstd::prelude::*;
use crate::address::Address;
use crate::custody::{custody_through, custody_through_joined, Action, Custody, DELEGATED_AMOUNT};
use crate::metadata::MetadataAccount;
use crate::record::{StakeError, StakeState, UserStakeInfo};
use crate::reward::{reward, reward_of_no_time};
use crate::staking::{
    readiness, redeem_outcome, redeem_plan, reward_due_of, stake_outcome, stake_plan,
    unstake_outcome, unstake_plan, with_metadata, OperationError, Redeem, Stake, Unstake,
};

verus! {

/// A request as it stands in the history of a record.
pub enum Request {
    Stake { user: Address, token_account: Address },
    Redeem { name: Seq<char> },
    Unstake { name: Seq<char> },
}

/// One entry in the history of a record: a request, the ledger time at which
/// it was made, and whether every action of it succeeded.
pub struct Attempt {
    pub request: Request,
    pub now: i64,
    pub carried_out: bool,
}

/// The record after an attempt. A request that is refused, or one of whose
/// actions fails, leaves the record as it was.
pub open spec fn record_after(record: UserStakeInfo, attempt: Attempt) -> UserStakeInfo {
    if !attempt.carried_out {
        record
    } else {
        match attempt.request {
            Request::Stake { user, token_account } => match stake_outcome(
                record,
                user,
                token_account,
                attempt.now,
            ) {
                Ok(staked) => staked,
                Err(_) => record,
            },
            Request::Redeem { name } => match redeem_outcome(record, name, attempt.now) {
                Ok((redeemed, _)) => redeemed,
                Err(_) => record,
            },
            Request::Unstake { name } => match unstake_outcome(record, name, attempt.now) {
                Ok((unstaked, _)) => unstaked,
                Err(_) => record,
            },
        }
    }
}

/// The record after the attempts of `history`, in order.
pub open spec fn record_after_all(record: UserStakeInfo, history: Seq<Attempt>) -> UserStakeInfo
    decreases history.len(),
{
    if history.len() == 0 {
        record
    } else {
        record_after_all(record_after(record, history.first()), history.drop_first())
    }
}

/// Whether record and custody agree: the record is staked exactly when the
/// asset account is frozen and delegated to the program's `authority`.
pub open spec fn in_step(record: UserStakeInfo, custody: Custody, authority: Address) -> bool {
    record.stake_state == StakeState::Staked <==> custody.frozen && custody.delegate == Some(
        authority,
    ) && custody.delegated >= 1
}

/// Whether `custody` is that of the asset account of `user` that a request
/// names.
pub open spec fn custody_is_of(custody: Custody, user: Address, token_account: Address) -> bool {
    custody.owner == user && custody.account == token_account
}

/// The state of a record changes in two ways only: a stake that is carried
/// out takes an unstaked record to staked, and an unstake that is carried out
/// takes a staked record to unstaked. Redeeming never changes the state, and
/// no attempt takes an initialized record back to uninitialized.
pub proof fn only_two_transitions(record: UserStakeInfo, attempt: Attempt)
    ensures
        record_after(record, attempt).stake_state != record.stake_state ==> attempt.carried_out && (
        (record.stake_state == StakeState::Unstaked && attempt.request is Stake && record_after(
            record,
            attempt,
        ).is_staked()) || (record.is_staked() && attempt.request is Unstake && record_after(
            record,
            attempt,
        ).stake_state == StakeState::Unstaked)),
        record.is_initialized ==> record_after(record, attempt).is_initialized,
{
}

/// A staked record refuses every request to stake with `AlreadyStaked`, and an
/// accepted request to stake leaves the record staked.
pub proof fn stake_is_refused_while_staked(
    record: UserStakeInfo,
    user: Address,
    token_account: Address,
    now: i64,
)
    ensures
        record.stake_state == StakeState::Staked ==> stake_outcome(record, user, token_account, now)
            == Err::<UserStakeInfo, StakeError>(StakeError::AlreadyStaked),
        stake_outcome(record, user, token_account, now) matches Ok(staked) ==> staked.is_staked(),
{
}

/// A staked record stays staked until an unstake is carried out. Requests to
/// redeem, requests that are refused and requests of which an action fails
/// leave it staked.
pub proof fn staked_until_unstaked(record: UserStakeInfo, history: Seq<Attempt>)
    requires
        record.stake_state == StakeState::Staked,
        forall|i: int|
            0 <= i < history.len() ==> !((#[trigger] history[i]).request is Unstake
                && history[i].carried_out),
    ensures
        record_after_all(record, history).stake_state == StakeState::Staked,
    decreases history.len(),
{
    if history.len() > 0 {
        let first = history.first();
        assert(!(first.request is Unstake && first.carried_out));
        let next = record_after(record, first);
        assert(next.stake_state == StakeState::Staked);
        let rest = history.drop_first();
        assert forall|i: int| 0 <= i < rest.len() implies !((#[trigger] rest[i]).request is Unstake
            && rest[i].carried_out) by {
            assert(rest[i] == history[i + 1]);
        }
        staked_until_unstaked(next, rest);
    }
}

/// Once an asset is staked, a second request to stake it is refused with
/// `AlreadyStaked`, whoever makes it and whenever, unless an unstake was
/// carried out in between; and the refused request leaves the record as it
/// was.
pub proof fn second_stake_is_refused(
    before: UserStakeInfo,
    first_user: Address,
    first_account: Address,
    first_time: i64,
    history: Seq<Attempt>,
    user: Address,
    token_account: Address,
    now: i64,
)
    requires
        stake_outcome(before, first_user, first_account, first_time) is Ok,
        forall|i: int|
            0 <= i < history.len() ==> !((#[trigger] history[i]).request is Unstake
                && history[i].carried_out),
    ensures
        ({
            let staked = stake_outcome(before, first_user, first_account, first_time)->Ok_0;
            let record = record_after_all(staked, history);
            &&& stake_outcome(record, user, token_account, now) == Err::<
                UserStakeInfo,
                StakeError,
            >(StakeError::AlreadyStaked)
            &&& record_after(
                record,
                Attempt { request: Request::Stake { user, token_account }, now, carried_out: true },
            ) == record
        }),
{
    let staked = stake_outcome(before, first_user, first_account, first_time)->Ok_0;
    staked_until_unstaked(staked, history);
}

/// A record that is not staked yields no reward: a request to redeem or to
/// unstake is refused with `UninitializedAccount` where the record was never
/// staked, and with `InvalidStakeState` where it was and is unstaked now,
/// whatever the asset's name or metadata account holds.
pub proof fn unstaked_record_yields_nothing(
    record: UserStakeInfo,
    name: Seq<char>,
    account: MetadataAccount,
    now: i64,
)
    requires
        !record.is_staked(),
    ensures
        readiness(record) == Err::<(), StakeError>(
            if record.is_initialized {
                StakeError::InvalidStakeState
            } else {
                StakeError::UninitializedAccount
            },
        ),
        redeem_outcome(record, name, now) == Err::<(UserStakeInfo, u64), StakeError>(
            readiness(record)->Err_0,
        ),
        unstake_outcome(record, name, now) == Err::<(UserStakeInfo, u64), StakeError>(
            readiness(record)->Err_0,
        ),
        with_metadata(record, account, |n: Seq<char>| redeem_outcome(record, n, now)) == Err::<
            (UserStakeInfo, u64),
            OperationError,
        >(OperationError::Stake(readiness(record)->Err_0)),
        with_metadata(record, account, |n: Seq<char>| unstake_outcome(record, n, now)) == Err::<
            (UserStakeInfo, u64),
            OperationError,
        >(OperationError::Stake(readiness(record)->Err_0)),
{
}

/// Before its first stake a record is blank, and after an unstake it is
/// unstaked: in both cases it yields nothing.
pub proof fn nothing_before_stake_or_after_unstake(
    blank: UserStakeInfo,
    record: UserStakeInfo,
    name: Seq<char>,
    now: i64,
)
    requires
        blank.is_blank(),
    ensures
        !blank.is_staked(),
        readiness(blank) == Err::<(), StakeError>(StakeError::UninitializedAccount),
        unstake_outcome(record, name, now) matches Ok((unstaked, _)) ==> !unstaked.is_staked()
            && readiness(unstaked) == Err::<(), StakeError>(StakeError::InvalidStakeState),
{
}

/// Redeeming changes the time of the last redemption and nothing else;
/// unstaking changes that time and the state. Owner, asset account and the
/// time of the stake stay as the stake set them.
pub proof fn redeem_and_unstake_keep_the_rest(record: UserStakeInfo, name: Seq<char>, now: i64)
    ensures
        redeem_outcome(record, name, now) matches Ok((redeemed, _)) ==> redeemed == (UserStakeInfo {
            last_stake_redeem: now,
            ..record
        }) && redeemed.is_staked(),
        unstake_outcome(record, name, now) matches Ok((unstaked, _)) ==> unstaked == (UserStakeInfo {
            last_stake_redeem: now,
            stake_state: StakeState::Unstaked,
            ..record
        }),
        redeem_outcome(record, name, now) is Ok <==> unstake_outcome(record, name, now) is Ok,
        redeem_outcome(record, name, now) matches Ok((_, amount)) ==> unstake_outcome(
            record,
            name,
            now,
        )->Ok_0.1 == amount,
{
}

/// The time of the last redemption never moves backwards, and never lies
/// before the time of the stake, as long as the ledger time does not run
/// backwards.
pub proof fn times_stay_ordered(record: UserStakeInfo, attempt: Attempt)
    requires
        record.stake_start_time <= record.last_stake_redeem <= attempt.now,
    ensures
        record.last_stake_redeem <= record_after(record, attempt).last_stake_redeem <= attempt.now,
        record_after(record, attempt).stake_start_time <= record_after(
            record,
            attempt,
        ).last_stake_redeem,
{
}

/// An asset that is staked and unstaked at the same ledger time earns
/// nothing, and its record is unstaked again: it differs from the record of
/// the stake in its state alone.
pub proof fn stake_then_unstake_at_once(
    record: UserStakeInfo,
    user: Address,
    token_account: Address,
    name: Seq<char>,
    now: i64,
)
    requires
        stake_outcome(record, user, token_account, now) is Ok,
        reward_due_of(now, name, now) is Ok,
    ensures
        unstake_outcome(stake_outcome(record, user, token_account, now)->Ok_0, name, now) == Ok::<
            (UserStakeInfo, u64),
            StakeError,
        >(
            (
                UserStakeInfo {
                    stake_state: StakeState::Unstaked,
                    ..stake_outcome(record, user, token_account, now)->Ok_0
                },
                0u64,
            ),
        ),
{
    let staked = stake_outcome(record, user, token_account, now)->Ok_0;
    assert(staked.last_stake_redeem == now);
    assert forall|factor: int, weight: int| #[trigger]
        reward(now - now, factor, weight) == 0 by {
        reward_of_no_time(factor, weight);
    }
}

/// The reward for no time is zero for every asset whose name is accepted.
pub proof fn no_time_no_reward(name: Seq<char>, now: i64)
    ensures
        reward_due_of(now, name, now) matches Ok(amount) ==> amount == 0,
{
    assert forall|factor: int, weight: int| #[trigger]
        reward(now - now, factor, weight) == 0 by {
        reward_of_no_time(factor, weight);
    }
}

/// Staking asks the custody layer for nothing that it refuses: the
/// delegation comes before the freezing that needs it. Afterwards the one
/// token is delegated to the custody authority and the account is frozen.
pub proof fn stake_plan_is_granted(ctx: Stake, custody: Custody)
    requires
        custody_is_of(custody, ctx.user, ctx.nft_token_account),
    ensures
        custody_through(custody, stake_plan(ctx)) == Some(
            Custody {
                delegate: Some(ctx.program_authority),
                delegated: DELEGATED_AMOUNT,
                frozen: true,
                ..custody
            },
        ),
{
    reveal_with_fuel(custody_through, 3);
    let plan = stake_plan(ctx);
    assert(plan.drop_first() =~= seq![plan[1]]);
    assert(plan.drop_first().drop_first() =~= Seq::<Action>::empty());
}

/// Redeeming leaves the custody of the asset account as it is.
pub proof fn redeem_plan_is_granted(ctx: Redeem, amount: u64, custody: Custody)
    ensures
        custody_through(custody, redeem_plan(ctx, amount)) == Some(custody),
{
    reveal_with_fuel(custody_through, 2);
    let plan = redeem_plan(ctx, amount);
    assert(plan.drop_first() =~= Seq::<Action>::empty());
}

/// Unstaking asks the custody layer for nothing that it refuses, as long as
/// the asset account is still delegated to the custody authority: the thawing
/// comes before the revocation that would forbid it. Afterwards nothing is
/// delegated and the account is not frozen.
pub proof fn unstake_plan_is_granted(ctx: Unstake, amount: u64, custody: Custody)
    requires
        custody_is_of(custody, ctx.user, ctx.nft_token_account),
        custody.delegate == Some(ctx.program_authority),
        custody.delegated >= 1,
    ensures
        custody_through(custody, unstake_plan(ctx, amount)) == Some(
            Custody { delegate: None, delegated: 0, frozen: false, ..custody },
        ),
{
    reveal_with_fuel(custody_through, 4);
    let plan = unstake_plan(ctx, amount);
    assert(plan.drop_first() =~= seq![plan[1], plan[2]]);
    assert(plan.drop_first().drop_first() =~= seq![plan[2]]);
    assert(plan.drop_first().drop_first().drop_first() =~= Seq::<Action>::empty());
}

/// The order of the actions matters. A stake that froze before it delegated
/// would be refused where the authority is not the delegate already, and an
/// unstake that revoked before it thawed would be refused always.
pub proof fn other_orders_are_refused(
    staking: Stake,
    unstaking: Unstake,
    amount: u64,
    custody: Custody,
)
    requires
        custody_is_of(custody, staking.user, staking.nft_token_account),
        custody_is_of(custody, unstaking.user, unstaking.nft_token_account),
    ensures
        custody.delegate != Some(staking.program_authority) ==> custody_through(
            custody,
            seq![stake_plan(staking)[1], stake_plan(staking)[0]],
        ) is None,
        custody_through(
            custody,
            seq![
                unstake_plan(unstaking, amount)[0],
                unstake_plan(unstaking, amount)[2],
                unstake_plan(unstaking, amount)[1],
            ],
        ) is None,
{
    reveal_with_fuel(custody_through, 4);
    let plan = unstake_plan(unstaking, amount);
    let swapped = seq![plan[0], plan[2], plan[1]];
    assert(swapped.drop_first() =~= seq![plan[2], plan[1]]);
    assert(swapped.drop_first().drop_first() =~= seq![plan[1]]);
}

/// A stake followed by an unstake returns the asset account to its owner as
/// it was: what staking delegated and froze, unstaking thaws and revokes.
pub proof fn round_trip_restores_custody(
    staking: Stake,
    unstaking: Unstake,
    amount: u64,
    custody: Custody,
)
    requires
        custody_is_of(custody, staking.user, staking.nft_token_account),
        custody_is_of(custody, unstaking.user, unstaking.nft_token_account),
        staking.program_authority == unstaking.program_authority,
        custody.delegate is None,
        custody.delegated == 0,
        !custody.frozen,
    ensures
        custody_through(custody, stake_plan(staking) + unstake_plan(unstaking, amount)) == Some(
            custody,
        ),
{
    let staked = Custody {
        delegate: Some(staking.program_authority),
        delegated: DELEGATED_AMOUNT,
        frozen: true,
        ..custody
    };
    stake_plan_is_granted(staking, custody);
    unstake_plan_is_granted(unstaking, amount, staked);
    custody_through_joined(custody, stake_plan(staking), unstake_plan(unstaking, amount));
}

/// Record and custody stay in step through a stake: where they agree before
/// it, every action of an accepted stake is granted, and they agree after it.
pub proof fn stake_keeps_in_step(ctx: Stake, now: i64, custody: Custody)
    requires
        custody_is_of(custody, ctx.user, ctx.nft_token_account),
        stake_outcome(ctx.stake_state, ctx.user, ctx.nft_token_account, now) is Ok,
    ensures
        custody_through(custody, stake_plan(ctx)) matches Some(after) && in_step(
            stake_outcome(ctx.stake_state, ctx.user, ctx.nft_token_account, now)->Ok_0,
            after,
            ctx.program_authority,
        ),
{
    stake_plan_is_granted(ctx, custody);
}

/// Record and custody stay in step through a redemption: it changes neither
/// the state of the record nor the custody of the asset account.
pub proof fn redeem_keeps_in_step(ctx: Redeem, name: Seq<char>, now: i64, custody: Custody, authority: Address)
    requires
        in_step(ctx.stake_state, custody, authority),
        redeem_outcome(ctx.stake_state, name, now) is Ok,
    ensures
        custody_through(
            custody,
            redeem_plan(ctx, redeem_outcome(ctx.stake_state, name, now)->Ok_0.1),
        ) matches Some(after) && in_step(
            redeem_outcome(ctx.stake_state, name, now)->Ok_0.0,
            after,
            authority,
        ),
{
    redeem_plan_is_granted(ctx, redeem_outcome(ctx.stake_state, name, now)->Ok_0.1, custody);
}

/// Record and custody stay in step through an unstake: where they agree
/// before it, every action of an accepted unstake is granted, and they agree
/// after it.
pub proof fn unstake_keeps_in_step(ctx: Unstake, name: Seq<char>, now: i64, custody: Custody)
    requires
        custody_is_of(custody, ctx.user, ctx.nft_token_account),
        in_step(ctx.stake_state, custody, ctx.program_authority),
        unstake_outcome(ctx.stake_state, name, now) is Ok,
    ensures
        custody_through(
            custody,
            unstake_plan(ctx, unstake_outcome(ctx.stake_state, name, now)->Ok_0.1),
        ) matches Some(after) && in_step(
            unstake_outcome(ctx.stake_state, name, now)->Ok_0.0,
            after,
            ctx.program_authority,
        ),
{
    unstake_plan_is_granted(ctx, unstake_outcome(ctx.stake_state, name, now)->Ok_0.1, custody);
}

} // verus!
