use basset_vault::actions::repay_step_computable;
use basset_vault::math::{Decimal256, Uint256};
use basset_vault::rebalance::{advice_computable, VaultBalances};
use basset_vault::strategy::BorrowerActionResponse;
use basset_vault::tax::TaxInfo;
use basset_vault::vault::{rewards_computable, Config};

fn max() -> Uint256 {
    Uint256::max_value()
}

fn half() -> Uint256 {
    // 2^255
    Uint256::from_limbs(0, 0, 0, 1u64 << 63)
}

fn tax(rate: &str, cap: u64) -> TaxInfo {
    TaxInfo { rate: Decimal256::from_str(rate).unwrap(), cap: Uint256::from(cap) }
}

fn config() -> Config {
    Config {
        governance_contract: "gov".to_string(),
        anchor_token: "anc".to_string(),
        anchor_overseer_contract: "overseer".to_string(),
        anchor_market_contract: "market".to_string(),
        anchor_custody_basset_contract: "custody".to_string(),
        anchor_basset_reward_contract: "basset_reward".to_string(),
        anc_stable_swap_contract: "anc_swap".to_string(),
        psi_stable_swap_contract: "psi_swap".to_string(),
        basset_token: "basset".to_string(),
        aterra_token: "aterra".to_string(),
        psi_token: "psi".to_string(),
        basset_vault_strategy_contract: "strategy".to_string(),
        stable_denom: "uusd".to_string(),
        claiming_rewards_delay: 1000,
        over_loan_balance_value: Decimal256::from_str("1.01").unwrap(),
        nasset_token: "nasset".to_string(),
        psi_distributor: "psi_distributor".to_string(),
    }
}

#[test]
fn sums_and_products_fit_below_two_to_the_256() {
    assert!(max().fits_add(&Uint256::zero()));
    assert!(!max().fits_add(&Uint256::one()));
    assert!(half().fits_add(&half().sub(Uint256::one())));
    assert!(!half().fits_add(&half()));
    assert!(half().fits_mul(&Uint256::one()));
    assert!(!half().fits_mul(&Uint256::from(2u64)));
    assert!(Uint256::zero().fits_mul(&max()));
    assert!(Uint256::from(1u64 << 32).fits_mul(&Uint256::from_limbs(0, 0, 0, 1u64 << 31)));
    assert!(!Uint256::from(1u64 << 33).fits_mul(&Uint256::from_limbs(0, 0, 0, 1u64 << 31)));
}

#[test]
fn tax_can_be_computed_unless_it_overflows() {
    let t = tax("0.005", 1_000_000);
    assert!(t.subtract_computable(Uint256::from(1_000u64)));
    assert!(t.append_computable(Uint256::from(1_000u64)));
    assert!(!t.subtract_computable(max()));
    assert!(!t.append_computable(max()));
    // no rate: nothing to compute
    assert!(tax("0", 0).subtract_computable(max()));
    assert!(tax("0", 0).append_computable(max()));
}

#[test]
fn repayment_steps_are_computable_for_ordinary_balances() {
    let t = tax("0.005", 1_000_000);
    let rate = Decimal256::from_str("1.1").unwrap();
    assert!(repay_step_computable(
        Uint256::from(100u64),
        Uint256::from(500u64),
        rate,
        Uint256::from(1_000u64),
        Uint256::from(50u64),
        &t,
        true,
    ));
    // the amount to repay and the buffer cannot be added
    assert!(!repay_step_computable(Uint256::from(100u64), Uint256::zero(), rate, max(), Uint256::one(), &t, true));
    // nothing held: nothing to compute
    assert!(repay_step_computable(Uint256::zero(), Uint256::zero(), rate, max(), max(), &t, true));
}

#[test]
fn advice_and_rewards_are_checked_before_they_are_carried_out() {
    let balances = VaultBalances {
        basset_in_contract_address: Uint256::zero(),
        basset_in_custody: Uint256::zero(),
        stable_coin_balance: Uint256::from(100u64),
        aterra_balance: Uint256::zero(),
        aterra_exchange_rate: Decimal256::one(),
        loan_amount: Uint256::from(10u64),
        tax_info: tax("0", 0),
    };
    assert!(advice_computable(&balances, &BorrowerActionResponse::Nothing));
    assert!(advice_computable(
        &balances,
        &BorrowerActionResponse::Repay { amount: Uint256::from(10u64), advised_buffer_size: Uint256::zero() }
    ));
    assert!(!advice_computable(
        &balances,
        &BorrowerActionResponse::Repay { amount: max(), advised_buffer_size: Uint256::one() }
    ));
    let no_tax = tax("0", 0);
    assert!(rewards_computable(
        &config(),
        Uint256::from(10u64),
        Uint256::from(10u64),
        Decimal256::one(),
        Uint256::from(10u64),
        &no_tax,
    ));
    assert!(!rewards_computable(&config(), max(), Uint256::zero(), Decimal256::one(), Uint256::zero(), &no_tax));
}
