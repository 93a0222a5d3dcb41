//! The reward engine: how much reward a staked asset has earned.
//!
//! The reward grows with the time since the last payout and with a factor that
//! is picked from the asset's block by the ledger time. The pick is no secure
//! source of chance: it is a plain function of the ledger time, which whoever
//! submits the request can observe and, within limits, choose.

use vstd::prelude::*;
use vstd::arithmetic::div_mod::{lemma_div_pos_is_pos, lemma_fundamental_div_mod_converse};
use crate::blocks::{d_block, f_block, get_blocks_arrays, p_block, s_block};
use crate::record::StakeError;

verus! {

/// The number of seconds in a day.
pub const SECONDS_PER_DAY: u64 = 86400;

/// The reward, in base units of the reward token, that accrues in one day at
/// a factor ratio of one.
pub const DAILY_RATE: u64 = 1000;

/// The remainder of the ledger time on division by `len`: between 0 and
/// `len - 1`, whatever the sign of the time.
pub open spec fn index_of(unix_timestamp: int, len: int) -> int {
    unix_timestamp % len
}

/// The position, counted from one, of the factor that the ledger time picks
/// in a block of `len` members. A remainder of zero picks the first member,
/// as a remainder of one does; the last member is never picked.
pub open spec fn factor_position(unix_timestamp: int, len: int) -> int {
    if index_of(unix_timestamp, len) == 0 {
        1
    } else {
        index_of(unix_timestamp, len)
    }
}

/// The block whose number of members is `len`.
pub open spec fn block_of_size(len: u8) -> Option<Seq<u8>> {
    if len == 15 {
        Some(s_block())
    } else if len == 36 {
        Some(p_block())
    } else if len == 40 {
        Some(d_block())
    } else if len == 28 {
        Some(f_block())
    } else {
        None
    }
}

/// The factor that the ledger time picks in the block of `len` members, or
/// `InvalidBlockData` where no block has that many.
pub open spec fn factor_of(len: u8, unix_timestamp: int) -> Result<u8, StakeError> {
    match block_of_size(len) {
        Some(block) => Ok(block[factor_position(unix_timestamp, len as int) - 1]),
        None => Err(StakeError::InvalidBlockData),
    }
}

/// The reward for `elapsed` seconds at the given factor and weight: the
/// thousandfold of the elapsed days, rounded down, times the ratio of factor
/// to weight, rounded down. Both roundings are part of the definition, so a
/// factor below the weight earns nothing.
pub open spec fn reward(elapsed: int, factor: int, weight: int) -> int {
    (DAILY_RATE * elapsed / SECONDS_PER_DAY as int) * (factor / weight)
}

/// The reward as an amount of the reward token, where it can be paid out:
/// the weight is not zero and the reward fits the token's amount type.
pub open spec fn payable_reward(elapsed: u64, factor: u8, weight: u8) -> Option<u64> {
    if weight != 0 && reward(elapsed as int, factor as int, weight as int) <= u64::MAX {
        Some(reward(elapsed as int, factor as int, weight as int) as u64)
    } else {
        None
    }
}

/// The reward for `elapsed` seconds of an asset in the block of the given
/// weight and of `len` members, at the given ledger time: the reward at the
/// factor that the time picks in the block. It is `InvalidBlockData` where no
/// block has `len` members or the reward cannot be paid out.
pub open spec fn block_reward_of(
    elapsed: u64,
    weight: u8,
    len: u8,
    unix_timestamp: int,
) -> Result<u64, StakeError> {
    match factor_of(len, unix_timestamp) {
        Err(error) => Err(error),
        Ok(factor) => match payable_reward(elapsed, factor, weight) {
            Some(amount) => Ok(amount),
            None => Err(StakeError::InvalidBlockData),
        },
    }
}

proof fn lemma_remainder_of_negative(t: int, n: int)
    requires
        t < 0,
        n > 0,
    ensures
        t % n == (if (-t) % n == 0 {
            0
        } else {
            n - (-t) % n
        }),
{
    let m = (-t) % n;
    let q = (-t) / n;
    assert(-t == n * q + m) by (nonlinear_arith)
        requires
            n > 0,
            m == (-t) % n,
            q == (-t) / n,
    ;
    if m == 0 {
        assert(t == (-q) * n + 0) by (nonlinear_arith)
            requires
                -t == n * q + m,
                m == 0,
        ;
        lemma_fundamental_div_mod_converse(t, n, -q, 0);
    } else {
        assert(t == (-q - 1) * n + (n - m)) by (nonlinear_arith)
            requires
                -t == n * q + m,
        ;
        lemma_fundamental_div_mod_converse(t, n, -q - 1, n - m);
    }
}

/// The remainder of the ledger time on division by `len`.
pub fn get_index(unix_timestamp: i64, len: u8) -> (index: usize)
    requires
        len > 0,
    ensures
        index == index_of(unix_timestamp as int, len as int),
{
    let r: i64 = unix_timestamp % (len as i64);
    if r < 0 {
        proof {
            lemma_remainder_of_negative(unix_timestamp as int, len as int);
        }
        (r + len as i64) as usize
    } else {
        proof {
            if unix_timestamp < 0 {
                lemma_remainder_of_negative(unix_timestamp as int, len as int);
            }
        }
        r as usize
    }
}

/// The factor that the ledger time picks in the block of `len` members.
///
/// Fails with `InvalidBlockData` exactly when `len` is the size of no block.
pub fn block_factor(len: u8, unix_timestamp: i64) -> (factor: Result<u8, StakeError>)
    ensures
        factor == factor_of(len, unix_timestamp as int),
{
    if len != 15 && len != 36 && len != 40 && len != 28 {
        return Err(StakeError::InvalidBlockData);
    }
    let (s, p, d, f) = get_blocks_arrays();
    let mut i: usize = get_index(unix_timestamp, len);
    if i == 0 {
        i = 1;
    }
    if len == 15 {
        Ok(s[i - 1])
    } else if len == 36 {
        Ok(p[i - 1])
    } else if len == 40 {
        Ok(d[i - 1])
    } else {
        Ok(f[i - 1])
    }
}

/// The reward for `elapsed` seconds at the given factor and weight, or `None`
/// where it cannot be paid out.
pub fn reward_amount(elapsed: u64, factor: u8, weight: u8) -> (amount: Option<u64>)
    ensures
        amount == payable_reward(elapsed, factor, weight),
{
    if weight == 0 {
        return None;
    }
    let rate: u128 = DAILY_RATE as u128;
    let day: u128 = SECONDS_PER_DAY as u128;
    assert(rate == 1000 && day == 86400);
    let days_rate: u128 = (rate * elapsed as u128) / day;
    let ratio: u128 = (factor / weight) as u128;
    assert(days_rate * ratio <= 0x1_0000_0000_0000_0000 * 255) by (nonlinear_arith)
        requires
            days_rate <= 0x1_0000_0000_0000_0000,
            ratio <= 255,
    ;
    let total: u128 = days_rate * ratio;
    if total > u64::MAX as u128 {
        None
    } else {
        Some(total as u64)
    }
}

/// The reward for `elapsed` seconds of an asset in the block of the given
/// weight and of `len` members, at the given ledger time.
///
/// Fails with `InvalidBlockData` exactly when no block has `len` members,
/// the weight is zero, or the reward outgrows the amounts of the reward token.
pub fn block_reward(elapsed: u64, weight: u8, len: u8, unix_timestamp: i64) -> (amount: Result<
    u64,
    StakeError,
>)
    ensures
        amount == block_reward_of(elapsed, weight, len, unix_timestamp as int),
{
    let factor = match block_factor(len, unix_timestamp) {
        Ok(factor) => factor,
        Err(error) => {
            return Err(error);
        },
    };
    match reward_amount(elapsed, factor, weight) {
        Some(amount) => Ok(amount),
        None => Err(StakeError::InvalidBlockData),
    }
}

/// The reward never shrinks as more time elapses, whatever the factor and the
/// weight of the block.
pub proof fn reward_monotonic(earlier: int, later: int, factor: int, weight: int)
    requires
        earlier <= later,
        0 <= factor,
        0 < weight,
    ensures
        reward(earlier, factor, weight) <= reward(later, factor, weight),
{
    let a = DAILY_RATE * earlier / SECONDS_PER_DAY as int;
    let b = DAILY_RATE * later / SECONDS_PER_DAY as int;
    let q = factor / weight;
    lemma_div_pos_is_pos(factor, weight);
    assert(a * q <= b * q) by (nonlinear_arith)
        requires
            a <= b,
            0 <= q,
    ;
}

/// No time, no reward.
pub proof fn reward_of_no_time(factor: int, weight: int)
    ensures
        reward(0, factor, weight) == 0,
{
    assert(0 * (factor / weight) == 0) by (nonlinear_arith);
}

/// A factor below the weight of its block earns nothing, however long the
/// asset was staked.
pub proof fn reward_of_small_factor(elapsed: int, factor: int, weight: int)
    requires
        0 <= factor < weight,
    ensures
        reward(elapsed, factor, weight) == 0,
{
    vstd::arithmetic::div_mod::lemma_basic_div(factor, weight);
    let a = DAILY_RATE * elapsed / SECONDS_PER_DAY as int;
    assert(a * 0 == 0) by (nonlinear_arith);
}

} // verus!
