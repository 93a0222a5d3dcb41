use nft_staking::reward::{block_factor, block_reward, get_index, reward_amount};
use nft_staking::StakeError;

#[test]
fn index_is_the_remainder_of_the_ledger_time() {
    assert_eq!(get_index(0, 15), 0);
    assert_eq!(get_index(14, 15), 14);
    assert_eq!(get_index(15, 15), 0);
    assert_eq!(get_index(1_700_000_000, 36), 8);
    assert_eq!(get_index(1_700_000_004, 36), 12);
    assert_eq!(get_index(i64::MAX, 1), 0);
    assert_eq!(get_index(i64::MAX, 255), (i64::MAX % 255) as usize);
}

#[test]
fn index_of_a_negative_time_is_not_negative() {
    assert_eq!(get_index(-1, 15), 14);
    assert_eq!(get_index(-15, 15), 0);
    assert_eq!(get_index(-86400, 28), 8);
    assert_eq!(get_index(i64::MIN, 40), i64::MIN.rem_euclid(40) as usize);
}

#[test]
fn factor_is_the_member_before_the_index() {
    // 1_700_000_004 leaves 12 on division by 36: the twelfth member.
    assert_eq!(block_factor(36, 1_700_000_004), Ok(18));
    assert_eq!(block_factor(36, 1_700_000_023), Ok(113));
    assert_eq!(block_factor(15, 14), Ok(88));
    assert_eq!(block_factor(40, 39), Ok(111));
    assert_eq!(block_factor(28, 27), Ok(101));
}

#[test]
fn remainder_zero_picks_the_first_member_as_remainder_one_does() {
    assert_eq!(block_factor(15, 0), Ok(1));
    assert_eq!(block_factor(15, 1), Ok(1));
    assert_eq!(block_factor(36, 1_700_000_028), Ok(5));
    assert_eq!(block_factor(36, 1_700_000_029), Ok(5));
    assert_eq!(block_factor(40, 80), Ok(21));
    assert_eq!(block_factor(28, 28), Ok(57));
}

#[test]
fn the_last_member_of_a_block_is_never_picked() {
    for time in 0i64..15 {
        assert_ne!(block_factor(15, time), Ok(119));
    }
    for time in 0i64..36 {
        assert_ne!(block_factor(36, time), Ok(118));
    }
}

#[test]
fn factor_of_an_unknown_block_size_is_invalid_block_data() {
    assert_eq!(block_factor(0, 5), Err(StakeError::InvalidBlockData));
    assert_eq!(block_factor(14, 5), Err(StakeError::InvalidBlockData));
    assert_eq!(block_factor(16, 5), Err(StakeError::InvalidBlockData));
    assert_eq!(block_factor(119, 5), Err(StakeError::InvalidBlockData));
    assert_eq!(block_factor(255, -5), Err(StakeError::InvalidBlockData));
}

#[test]
fn reward_for_one_day_is_thousand_times_the_ratio() {
    assert_eq!(reward_amount(86400, 113, 20), Some(5000));
    assert_eq!(reward_amount(86400, 119, 10), Some(11000));
    assert_eq!(reward_amount(86400, 40, 40), Some(1000));
    assert_eq!(reward_amount(86400, 102, 40), Some(2000));
}

#[test]
fn reward_of_carbon_for_one_day_at_factor_18_is_zero() {
    // The ratio of factor to weight is rounded down before it is multiplied:
    // 18 / 20 is 0, so the reward is 1000 * 0 and not 900.
    assert_eq!(reward_amount(86400, 18, 20), Some(0));
    assert_ne!(reward_amount(86400, 18, 20), Some(900));
}

#[test]
fn reward_rounds_the_days_down_before_it_multiplies() {
    // 1000 * 86399 / 86400 = 999, times 113 / 20 = 5.
    assert_eq!(reward_amount(86399, 113, 20), Some(4995));
    // 1000 * 86 / 86400 = 0.
    assert_eq!(reward_amount(86, 119, 10), Some(0));
    // 1000 * 87 / 86400 = 1.
    assert_eq!(reward_amount(87, 119, 10), Some(11));
    assert_eq!(reward_amount(43200, 60, 30), Some(1000));
}

#[test]
fn reward_for_no_time_is_zero() {
    assert_eq!(reward_amount(0, 119, 10), Some(0));
    assert_eq!(reward_amount(0, 0, 1), Some(0));
    assert_eq!(reward_amount(0, 255, 1), Some(0));
}

#[test]
fn reward_does_not_shrink_as_time_goes_on() {
    let mut before = 0u64;
    for elapsed in (0u64..400_000).step_by(37) {
        let now = reward_amount(elapsed, 113, 20).unwrap();
        assert!(before <= now);
        before = now;
    }
}

#[test]
fn reward_without_a_weight_cannot_be_paid() {
    assert_eq!(reward_amount(86400, 18, 0), None);
    assert_eq!(reward_amount(0, 0, 0), None);
}

#[test]
fn reward_beyond_the_token_amounts_cannot_be_paid() {
    // 1000 * u64::MAX / 86400 = 213503982334601291; times 87 it outgrows u64.
    assert_eq!(reward_amount(u64::MAX, 86, 1), Some(213503982334601291 * 86));
    assert_eq!(reward_amount(u64::MAX, 87, 1), None);
    assert_eq!(reward_amount(u64::MAX, 255, 10), Some(213503982334601291 * 25));
}

#[test]
fn block_reward_is_the_reward_at_the_factor_that_the_time_picks() {
    // 1_700_000_023 leaves 31 on division by 36, which picks the factor 113; 113 / 20 is 5.
    assert_eq!(block_reward(86400, 20, 36, 1_700_000_023), Ok(5000));
    // 1_700_000_004 leaves 12, which picks the factor 18; 18 / 20 is 0.
    assert_eq!(block_reward(86400, 20, 36, 1_700_000_004), Ok(0));
    // 14 picks the factor 88 among the 15; 88 / 10 is 8; half a day.
    assert_eq!(block_reward(43200, 10, 15, 14), Ok(4000));
    assert_eq!(block_reward(0, 40, 28, 27), Ok(0));
}

#[test]
fn block_reward_of_an_unknown_block_size_is_invalid_block_data() {
    assert_eq!(block_reward(86400, 20, 35, 1_700_000_023), Err(StakeError::InvalidBlockData));
    assert_eq!(block_reward(86400, 20, 0, 1_700_000_023), Err(StakeError::InvalidBlockData));
}

#[test]
fn block_reward_that_cannot_be_paid_is_invalid_block_data() {
    assert_eq!(block_reward(86400, 0, 36, 1_700_000_023), Err(StakeError::InvalidBlockData));
    // 14 picks the factor 88 among the 15; at the weight 1 the ratio is 88.
    assert_eq!(block_reward(u64::MAX, 1, 15, 14), Err(StakeError::InvalidBlockData));
    assert_eq!(block_reward(u64::MAX, 2, 15, 14), Ok(213503982334601291 * 44));
}
