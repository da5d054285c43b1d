use basset_vault::math::{Decimal256, Uint256};
use basset_vault::tax::TaxInfo;

#[test]
fn calcl_tax_for_minimum_amount_to_send_assert_from_terra_station() {
    let tax_info = TaxInfo {
        rate: Decimal256::from_str("0.003191811080725897").unwrap(),
        cap: Uint256::from(1_411_603u64),
    };
    let tax = tax_info.get_tax_for(Uint256::one());
    assert_eq!(tax, Uint256::one());
}

#[test]
fn calcl_tax_to_send_two_coins_assert_from_terra_station() {
    let tax_info = TaxInfo {
        rate: Decimal256::from_str("0.003191811080725897").unwrap(),
        cap: Uint256::from(1_411_603u64),
    };
    let tax = tax_info.get_tax_for(Uint256::from(2u64));
    assert_eq!(tax, Uint256::one());
}

#[test]
fn calcl_tax_to_send_hundred_coins_assert_from_terra_station() {
    let tax_info = TaxInfo {
        rate: Decimal256::from_str("0.003191811080725897").unwrap(),
        cap: Uint256::from(1_411_603u64),
    };
    let tax = tax_info.get_tax_for(Uint256::from(100u64));
    assert_eq!(tax, Uint256::one());
}

#[test]
fn calcl_tax_to_send_thousand_coins_assert_from_terra_station() {
    let tax_info = TaxInfo {
        rate: Decimal256::from_str("0.003191811080725897").unwrap(),
        cap: Uint256::from(1_411_603u64),
    };
    let tax = tax_info.get_tax_for(Uint256::from(1_000u64));
    assert_eq!(tax, Uint256::from(4u64));
}

#[test]
fn calcl_tax_to_send_ten_thousands_coins_assert_from_terra_station() {
    let tax_info = TaxInfo {
        rate: Decimal256::from_str("0.003191811080725897").unwrap(),
        cap: Uint256::from(1_411_603u64),
    };
    let tax = tax_info.get_tax_for(Uint256::from(10_000u64));
    assert_eq!(tax, Uint256::from(32u64));
}

#[test]
fn calcl_tax_to_send_hundred_thousands_coins_assert_from_terra_station() {
    let tax_info = TaxInfo {
        rate: Decimal256::from_str("0.003191811080725897").unwrap(),
        cap: Uint256::from(1_411_603u64),
    };
    let tax = tax_info.get_tax_for(Uint256::from(100_000u64));
    assert_eq!(tax, Uint256::from(319u64));
}

#[test]
fn calcl_tax_to_send_million_coins_assert_from_terra_station() {
    let tax_info = TaxInfo {
        rate: Decimal256::from_str("0.003191811080725897").unwrap(),
        cap: Uint256::from(1_411_603u64),
    };
    let tax = tax_info.get_tax_for(Uint256::from(1_000_000u64));
    assert_eq!(tax, Uint256::from(3_182u64));
}
