use basset_vault::math::{Decimal256, Uint256};
use basset_vault::staking::{calculate_reward_index, State};

#[test]
fn reward_calc_zero_state() {
    let mut state = State {
        global_reward_index: Decimal256::zero(),
        last_reward_amount: Decimal256::zero(),
        last_reward_updated: 0u64,
    };
    let borrowed_amount = Uint256::from(0u64);
    let aterra_amount = Uint256::from(0u64);
    let aterra_exchange_rate = Decimal256::zero();
    let ust_amount = Uint256::from(0u64);
    let casset_staked_amount = Uint256::from(0u64);

    calculate_reward_index(
        &mut state,
        borrowed_amount,
        aterra_amount,
        aterra_exchange_rate,
        ust_amount,
        casset_staked_amount,
    );
    assert_eq!(state.last_reward_amount, Decimal256::zero());
    assert_eq!(state.global_reward_index, Decimal256::zero());
}

#[test]
fn reward_calc_first_reward() {
    let mut state = State {
        global_reward_index: Decimal256::zero(),
        last_reward_amount: Decimal256::zero(),
        last_reward_updated: 0u64,
    };
    let borrowed_amount = Uint256::from(200_000u64);
    let aterra_amount = Uint256::from(195_000u64);
    let aterra_exchange_rate = Decimal256::from_str("1.1").unwrap();
    let ust_amount = Uint256::from(10_000u64);
    let casset_staked_amount = Uint256::from(100u64);
    //195 * 1.1 = 214.5; 214.5 + 10 - 200 = 24.5

    calculate_reward_index(
        &mut state,
        borrowed_amount,
        aterra_amount,
        aterra_exchange_rate,
        ust_amount,
        casset_staked_amount,
    );
    assert_eq!(
        state.last_reward_amount,
        Decimal256::from_str("24500").unwrap()
    );
    // 24_500 / 100
    assert_eq!(
        state.global_reward_index,
        Decimal256::from_str("245").unwrap()
    );
}

#[test]
fn reward_calc_second_reward() {
    //get from 'first reward' test
    let mut state = State {
        global_reward_index: Decimal256::from_ratio(
            Uint256::from(24_500u64),
            Uint256::from(100u64),
        ),
        last_reward_amount: Decimal256::from_str("24500").unwrap(),
        last_reward_updated: 0u64,
    };
    let borrowed_amount = Uint256::from(300_000u64);
    let aterra_amount = Uint256::from(290_000u64);
    let aterra_exchange_rate = Decimal256::from_str("1.2").unwrap();
    let ust_amount = Uint256::from(10_000u64);
    let casset_staked_amount = Uint256::from(100u64);
    //290 * 1.2 = 348; 348 + 10 - 300 = 58

    let prev_global_reward_index = state.global_reward_index;
    calculate_reward_index(
        &mut state,
        borrowed_amount,
        aterra_amount,
        aterra_exchange_rate,
        ust_amount,
        casset_staked_amount,
    );
    assert_eq!(
        state.last_reward_amount,
        Decimal256::from_str("58000").unwrap()
    );
    // new_rewards = 58_000 - 24_500 = 33_500
    assert_eq!(
        state.global_reward_index,
        prev_global_reward_index
            .add(Decimal256::from_ratio(Uint256::from(33_500u64), Uint256::from(100u64)))
    );
}

#[test]
fn reward_calc_borrowed_amount_bigger_then_aterra_amount() {
    let last_reward_amount = Decimal256::from_str("14500").unwrap();
    let global_reward_index =
        Decimal256::from_ratio(Uint256::from(24_500u64), Uint256::from(100u64));
    //get from 'first reward' test
    let mut state = State {
        global_reward_index,
        last_reward_amount,
        last_reward_updated: 0u64,
    };
    let borrowed_amount = Uint256::from(300_000u64);
    let aterra_amount = Uint256::from(200_000u64);
    let aterra_exchange_rate = Decimal256::from_str("1.2").unwrap();
    let ust_amount = Uint256::from(10_000u64);
    let casset_staked_amount = Uint256::from(100u64);
    //200 * 1.2 = 240; 240 + 10 - 300 = -50
    //so borrowed_amount is less than UST balance, means do not change rewards

    calculate_reward_index(
        &mut state,
        borrowed_amount,
        aterra_amount,
        aterra_exchange_rate,
        ust_amount,
        casset_staked_amount,
    );
    assert_eq!(state.last_reward_amount, last_reward_amount);
    assert_eq!(state.global_reward_index, global_reward_index);
}

#[test]
fn reward_calc_negative_reward() {
    let last_reward_amount = Decimal256::from_str("14500").unwrap();
    let global_reward_index =
        Decimal256::from_ratio(Uint256::from(24_500u64), Uint256::from(100u64));
    //get from 'first reward' test
    let mut state = State {
        global_reward_index,
        last_reward_amount,
        last_reward_updated: 0u64,
    };
    let borrowed_amount = Uint256::from(300_000u64);
    let aterra_amount = Uint256::from(275_000u64);
    let aterra_exchange_rate = Decimal256::from_str("1.1").unwrap();
    let ust_amount = Uint256::from(10_000u64);
    let casset_staked_amount = Uint256::from(100u64);
    //275 * 1.1 = 302.5; 302.5 + 10 - 300 = 12.5
    //12.5 is less then previous reward amount, means do not change rewards

    calculate_reward_index(
        &mut state,
        borrowed_amount,
        aterra_amount,
        aterra_exchange_rate,
        ust_amount,
        casset_staked_amount,
    );
    assert_eq!(state.last_reward_amount, last_reward_amount);
    assert_eq!(state.global_reward_index, global_reward_index);
}
