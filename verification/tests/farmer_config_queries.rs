use basset_vault::farmer_config::{calc_borrower_action, BorrowerActionResponse};
use basset_vault::math::{Decimal256, Uint256};

#[test]
fn queries_repay_loan() {
    let basset_price = Decimal256::from_str("5.5").unwrap();
    let borrowed_amount = Uint256::from(519_750u64);
    let locked_basset_amount = Uint256::from(210_000u64);
    let basset_max_ltv = Decimal256::from_str("0.5").unwrap();
    let borrow_ltv_max = Decimal256::from_str("0.85").unwrap();
    let borrow_ltv_min = Decimal256::from_str("0.75").unwrap();
    let borrow_ltv_aim = Decimal256::from_str("0.8").unwrap();

    //max_borrow = 210_000 * 5.5 * 0.5 = 577_500
    //ltv = 519_750 / 577_500 = 0.9
    //to_repay =  (0.9 - 0.8) * 577_500 = 57_750
    let borrower_action = calc_borrower_action(
        basset_price,
        borrowed_amount,
        locked_basset_amount,
        basset_max_ltv,
        borrow_ltv_max,
        borrow_ltv_min,
        borrow_ltv_aim,
    );
    assert_eq!(
        borrower_action,
        BorrowerActionResponse::repay(Uint256::from(57_750u64))
    );
}

#[test]
fn queries_borrow_more() {
    let basset_price = Decimal256::from_str("5.5").unwrap();
    let borrowed_amount = Uint256::from(346_500u64);
    let locked_basset_amount = Uint256::from(210_000u64);
    let basset_max_ltv = Decimal256::from_str("0.5").unwrap();
    let borrow_ltv_max = Decimal256::from_str("0.85").unwrap();
    let borrow_ltv_min = Decimal256::from_str("0.75").unwrap();
    let borrow_ltv_aim = Decimal256::from_str("0.8").unwrap();

    //max_borrow = 210_000 * 5.5 * 0.5 = 577_500
    //ltv = 346_500 / 577_500 = 0.6
    //to_borrow =  (0.8 - 0.6) * 577_500 = 115_500
    let borrower_action = calc_borrower_action(
        basset_price,
        borrowed_amount,
        locked_basset_amount,
        basset_max_ltv,
        borrow_ltv_max,
        borrow_ltv_min,
        borrow_ltv_aim,
    );
    assert_eq!(
        borrower_action,
        BorrowerActionResponse::borrow(Uint256::from(115_500u64))
    );
}

#[test]
fn queries_do_nothing() {
    let basset_price = Decimal256::from_str("5.5").unwrap();
    let borrowed_amount = Uint256::from(473_550u64);
    let locked_basset_amount = Uint256::from(210_000u64);
    let basset_max_ltv = Decimal256::from_str("0.5").unwrap();
    let borrow_ltv_max = Decimal256::from_str("0.85").unwrap();
    let borrow_ltv_min = Decimal256::from_str("0.75").unwrap();
    let borrow_ltv_aim = Decimal256::from_str("0.8").unwrap();

    //max_borrow = 210_000 * 5.5 * 0.5 = 577_500
    //ltv = 473_550 / 577_500 = 0.82
    //0.75 < 0.82 < 0.85 => do nothing
    let borrower_action = calc_borrower_action(
        basset_price,
        borrowed_amount,
        locked_basset_amount,
        basset_max_ltv,
        borrow_ltv_max,
        borrow_ltv_min,
        borrow_ltv_aim,
    );
    assert_eq!(borrower_action, BorrowerActionResponse::nothing());
}

#[test]
fn queries_locked_amount_is_zero_and_borrowed_zero() {
    let basset_price = Decimal256::from_str("5.5").unwrap();
    let borrowed_amount = Uint256::zero();
    let locked_basset_amount = Uint256::zero();
    let basset_max_ltv = Decimal256::from_str("0.5").unwrap();
    let borrow_ltv_max = Decimal256::from_str("0.85").unwrap();
    let borrow_ltv_min = Decimal256::from_str("0.75").unwrap();
    let borrow_ltv_aim = Decimal256::from_str("0.8").unwrap();

    let borrower_action = calc_borrower_action(
        basset_price,
        borrowed_amount,
        locked_basset_amount,
        basset_max_ltv,
        borrow_ltv_max,
        borrow_ltv_min,
        borrow_ltv_aim,
    );
    assert_eq!(borrower_action, BorrowerActionResponse::nothing());
}

#[test]
fn queries_locked_amount_is_zero_and_borrowed_not_zero() {
    let basset_price = Decimal256::from_str("5.5").unwrap();
    let borrowed_amount = Uint256::from(473_550u64);
    let locked_basset_amount = Uint256::zero();
    let basset_max_ltv = Decimal256::from_str("0.5").unwrap();
    let borrow_ltv_max = Decimal256::from_str("0.85").unwrap();
    let borrow_ltv_min = Decimal256::from_str("0.75").unwrap();
    let borrow_ltv_aim = Decimal256::from_str("0.8").unwrap();

    let borrower_action = calc_borrower_action(
        basset_price,
        borrowed_amount,
        locked_basset_amount,
        basset_max_ltv,
        borrow_ltv_max,
        borrow_ltv_min,
        borrow_ltv_aim,
    );
    assert_eq!(
        borrower_action,
        BorrowerActionResponse::repay(borrowed_amount)
    );
}

#[test]
fn queries_borrowed_amount_is_zero() {
    let basset_price = Decimal256::from_str("5.5").unwrap();
    let borrowed_amount = Uint256::zero();
    let locked_basset_amount = Uint256::from(210_000u64);
    let basset_max_ltv = Decimal256::from_str("0.5").unwrap();
    let borrow_ltv_max = Decimal256::from_str("0.85").unwrap();
    let borrow_ltv_min = Decimal256::from_str("0.75").unwrap();
    let borrow_ltv_aim = Decimal256::from_str("0.8").unwrap();

    //max_borrow = 210_000 * 5.5 * 0.5 = 577_500
    //ltv = 0.0
    //to_borrow =  (0.8 - 0.0) * 577_500 = 462_000
    let borrower_action = calc_borrower_action(
        basset_price,
        borrowed_amount,
        locked_basset_amount,
        basset_max_ltv,
        borrow_ltv_max,
        borrow_ltv_min,
        borrow_ltv_aim,
    );
    assert_eq!(
        borrower_action,
        BorrowerActionResponse::borrow(Uint256::from(462_000u64))
    );
}

#[test]
fn queries_asset_price_is_zero() {
    let basset_price = Decimal256::zero();
    let borrowed_amount = Uint256::from(473_550u64);
    let locked_basset_amount = Uint256::from(210_000u64);
    let basset_max_ltv = Decimal256::from_str("0.5").unwrap();
    let borrow_ltv_max = Decimal256::from_str("0.85").unwrap();
    let borrow_ltv_min = Decimal256::from_str("0.75").unwrap();
    let borrow_ltv_aim = Decimal256::from_str("0.8").unwrap();

    let borrower_action = calc_borrower_action(
        basset_price,
        borrowed_amount,
        locked_basset_amount,
        basset_max_ltv,
        borrow_ltv_max,
        borrow_ltv_min,
        borrow_ltv_aim,
    );
    assert_eq!(
        borrower_action,
        BorrowerActionResponse::repay(borrowed_amount)
    );
}
