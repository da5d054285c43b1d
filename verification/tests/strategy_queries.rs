use basset_vault::math::{Decimal256, Uint256};
use basset_vault::strategy::{
    calc_borrower_action, AnchorApr, BorrowNetApr, BorrowerActionResponse, LTVInfo, PriceResponse,
};

#[test]
fn repay_loan() {
    let anchor_apr = AnchorApr {
        earn: Decimal256::from_str("0.20").unwrap(),
        borrow: BorrowNetApr {
            distribution_apr: Decimal256::from_str("0.10").unwrap(),
            interest_apr: Decimal256::from_str("0.05").unwrap(),
        },
    };
    let basset_in_contract_address = Uint256::zero();
    let borrowed_amount = Uint256::from(519_750u64);
    let locked_basset_amount = Uint256::from(210_000u64);
    let basset_max_ltv = Decimal256::from_str("0.5").unwrap();
    let buffer_part = Decimal256::from_str("0.018").unwrap();
    let ltv_info = LTVInfo {
        basset_price: Decimal256::from_str("5.5").unwrap(),
        borrow_ltv_max: Decimal256::from_str("0.85").unwrap(),
        borrow_ltv_min: Decimal256::from_str("0.75").unwrap(),
        borrow_ltv_aim: Decimal256::from_str("0.8").unwrap(),
    };

    //max_borrow = 210_000 * 5.5 * 0.5 = 577_500
    //ltv = 519_750 / 577_500 = 0.9
    //to_repay = (0.9 - 0.8) * 577_500 = 57_750
    //buffer_size = 0.018 * 577_500 = 10_395
    let borrower_action = calc_borrower_action(
        Ok(anchor_apr),
        ltv_info,
        basset_in_contract_address,
        borrowed_amount,
        locked_basset_amount,
        basset_max_ltv,
        buffer_part,
    );
    assert_eq!(
        borrower_action,
        BorrowerActionResponse::repay(Uint256::from(57_750u64), Uint256::from(10_395u64))
    );
}

#[test]
fn borrow_more() {
    let anchor_apr = AnchorApr {
        earn: Decimal256::from_str("0.20").unwrap(),
        borrow: BorrowNetApr {
            distribution_apr: Decimal256::from_str("0.10").unwrap(),
            interest_apr: Decimal256::from_str("0.05").unwrap(),
        },
    };
    let basset_in_contract_address = Uint256::zero();
    let borrowed_amount = Uint256::from(346_500u64);
    let locked_basset_amount = Uint256::from(210_000u64);
    let basset_max_ltv = Decimal256::from_str("0.5").unwrap();
    let buffer_part = Decimal256::from_str("0.018").unwrap();
    let ltv_info = LTVInfo {
        basset_price: Decimal256::from_str("5.5").unwrap(),
        borrow_ltv_max: Decimal256::from_str("0.85").unwrap(),
        borrow_ltv_min: Decimal256::from_str("0.75").unwrap(),
        borrow_ltv_aim: Decimal256::from_str("0.8").unwrap(),
    };

    //max_borrow = 210_000 * 5.5 * 0.5 = 577_500
    //ltv = 346_500 / 577_500 = 0.6
    //to_borrow =  (0.8 - 0.6) * 577_500 = 115_500
    //buffer_size = 0.018 * 577_500 = 10_395
    let borrower_action = calc_borrower_action(
        Ok(anchor_apr),
        ltv_info,
        basset_in_contract_address,
        borrowed_amount,
        locked_basset_amount,
        basset_max_ltv,
        buffer_part,
    );
    assert_eq!(
        borrower_action,
        BorrowerActionResponse::borrow(Uint256::from(115_500u64), Uint256::from(10_395u64))
    );
}

#[test]
fn nothing_on_aim_borrow_amount_equals_zero() {
    let anchor_apr = AnchorApr {
        earn: Decimal256::from_str("0.20").unwrap(),
        borrow: BorrowNetApr {
            distribution_apr: Decimal256::from_str("0.10").unwrap(),
            interest_apr: Decimal256::from_str("0.05").unwrap(),
        },
    };
    let basset_in_contract_address = Uint256::zero();
    let borrowed_amount = Uint256::zero();
    let locked_basset_amount = Uint256::from(3u64);
    let basset_max_ltv = Decimal256::from_str("0.6").unwrap();
    let buffer_part = Decimal256::from_str("0.018").unwrap();
    let ltv_info = LTVInfo {
        basset_price: Decimal256::from_str("1").unwrap(),
        borrow_ltv_max: Decimal256::from_str("0.85").unwrap(),
        borrow_ltv_min: Decimal256::from_str("0.75").unwrap(),
        borrow_ltv_aim: Decimal256::from_str("0.8").unwrap(),
    };

    let borrower_action = calc_borrower_action(
        Ok(anchor_apr),
        ltv_info,
        basset_in_contract_address,
        borrowed_amount,
        locked_basset_amount,
        basset_max_ltv,
        buffer_part,
    );
    assert_eq!(borrower_action, BorrowerActionResponse::nothing());
}

#[test]
fn do_nothing() {
    let anchor_apr = AnchorApr {
        earn: Decimal256::from_str("0.20").unwrap(),
        borrow: BorrowNetApr {
            distribution_apr: Decimal256::from_str("0.10").unwrap(),
            interest_apr: Decimal256::from_str("0.05").unwrap(),
        },
    };
    let basset_in_contract_address = Uint256::zero();
    let borrowed_amount = Uint256::from(473_550u64);
    let locked_basset_amount = Uint256::from(210_000u64);
    let basset_max_ltv = Decimal256::from_str("0.5").unwrap();
    let buffer_part = Decimal256::from_str("0.018").unwrap();
    let ltv_info = LTVInfo {
        basset_price: Decimal256::from_str("5.5").unwrap(),
        borrow_ltv_max: Decimal256::from_str("0.85").unwrap(),
        borrow_ltv_min: Decimal256::from_str("0.75").unwrap(),
        borrow_ltv_aim: Decimal256::from_str("0.8").unwrap(),
    };

    //max_borrow = 210_000 * 5.5 * 0.5 = 577_500
    //ltv = 473_550 / 577_500 = 0.82
    //0.75 < 0.82 < 0.85 => do nothing
    let borrower_action = calc_borrower_action(
        Ok(anchor_apr),
        ltv_info,
        basset_in_contract_address,
        borrowed_amount,
        locked_basset_amount,
        basset_max_ltv,
        buffer_part,
    );
    assert_eq!(borrower_action, BorrowerActionResponse::nothing());
}

#[test]
fn locked_amount_is_zero_and_borrowed_zero() {
    let anchor_apr = AnchorApr {
        earn: Decimal256::from_str("0.20").unwrap(),
        borrow: BorrowNetApr {
            distribution_apr: Decimal256::from_str("0.10").unwrap(),
            interest_apr: Decimal256::from_str("0.05").unwrap(),
        },
    };
    let basset_in_contract_address = Uint256::zero();
    let borrowed_amount = Uint256::zero();
    let locked_basset_amount = Uint256::zero();
    let basset_max_ltv = Decimal256::from_str("0.5").unwrap();
    let buffer_part = Decimal256::from_str("0.018").unwrap();
    let ltv_info = LTVInfo {
        basset_price: Decimal256::from_str("5.5").unwrap(),
        borrow_ltv_max: Decimal256::from_str("0.85").unwrap(),
        borrow_ltv_min: Decimal256::from_str("0.75").unwrap(),
        borrow_ltv_aim: Decimal256::from_str("0.8").unwrap(),
    };

    let borrower_action = calc_borrower_action(
        Ok(anchor_apr),
        ltv_info,
        basset_in_contract_address,
        borrowed_amount,
        locked_basset_amount,
        basset_max_ltv,
        buffer_part,
    );
    assert_eq!(borrower_action, BorrowerActionResponse::nothing());
}

#[test]
fn locked_amount_is_zero_and_borrowed_not_zero() {
    let anchor_apr = AnchorApr {
        earn: Decimal256::from_str("0.20").unwrap(),
        borrow: BorrowNetApr {
            distribution_apr: Decimal256::from_str("0.10").unwrap(),
            interest_apr: Decimal256::from_str("0.05").unwrap(),
        },
    };
    let basset_in_contract_address = Uint256::zero();
    let borrowed_amount = Uint256::from(473_550u64);
    let locked_basset_amount = Uint256::zero();
    let basset_max_ltv = Decimal256::from_str("0.5").unwrap();
    let buffer_part = Decimal256::from_str("0.018").unwrap();

    let ltv_info = LTVInfo {
        basset_price: Decimal256::from_str("5.5").unwrap(),
        borrow_ltv_max: Decimal256::from_str("0.85").unwrap(),
        borrow_ltv_min: Decimal256::from_str("0.75").unwrap(),
        borrow_ltv_aim: Decimal256::from_str("0.8").unwrap(),
    };
    let borrower_action = calc_borrower_action(
        Ok(anchor_apr),
        ltv_info,
        basset_in_contract_address,
        borrowed_amount,
        locked_basset_amount,
        basset_max_ltv,
        buffer_part,
    );
    assert_eq!(
        borrower_action,
        BorrowerActionResponse::repay(borrowed_amount, Uint256::zero())
    );
}

#[test]
fn collateral_value_is_low_and_borrowed_zero() {
    let anchor_apr = AnchorApr {
        earn: Decimal256::from_str("0.20").unwrap(),
        borrow: BorrowNetApr {
            distribution_apr: Decimal256::from_str("0.10").unwrap(),
            interest_apr: Decimal256::from_str("0.05").unwrap(),
        },
    };
    let basset_in_contract_address = Uint256::zero();
    let borrowed_amount = Uint256::zero();
    let locked_basset_amount = Uint256::from(1u64);
    let basset_max_ltv = Decimal256::from_str("0.5").unwrap();
    let buffer_part = Decimal256::from_str("0.018").unwrap();
    let ltv_info = LTVInfo {
        basset_price: Decimal256::from_str("1").unwrap(),
        borrow_ltv_max: Decimal256::from_str("0.85").unwrap(),
        borrow_ltv_min: Decimal256::from_str("0.75").unwrap(),
        borrow_ltv_aim: Decimal256::from_str("0.8").unwrap(),
    };

    let borrower_action = calc_borrower_action(
        Ok(anchor_apr),
        ltv_info,
        basset_in_contract_address,
        borrowed_amount,
        locked_basset_amount,
        basset_max_ltv,
        buffer_part,
    );
    assert_eq!(borrower_action, BorrowerActionResponse::nothing());
}

#[test]
fn collateral_value_is_low_and_borrowed_not_zero() {
    let anchor_apr = AnchorApr {
        earn: Decimal256::from_str("0.20").unwrap(),
        borrow: BorrowNetApr {
            distribution_apr: Decimal256::from_str("0.10").unwrap(),
            interest_apr: Decimal256::from_str("0.05").unwrap(),
        },
    };
    let basset_in_contract_address = Uint256::zero();
    let borrowed_amount = Uint256::from(10_000u64);
    let locked_basset_amount = Uint256::from(1u64);
    let basset_max_ltv = Decimal256::from_str("0.5").unwrap();
    let buffer_part = Decimal256::from_str("0.018").unwrap();
    let ltv_info = LTVInfo {
        basset_price: Decimal256::from_str("1").unwrap(),
        borrow_ltv_max: Decimal256::from_str("0.85").unwrap(),
        borrow_ltv_min: Decimal256::from_str("0.75").unwrap(),
        borrow_ltv_aim: Decimal256::from_str("0.8").unwrap(),
    };

    let borrower_action = calc_borrower_action(
        Ok(anchor_apr),
        ltv_info,
        basset_in_contract_address,
        borrowed_amount,
        locked_basset_amount,
        basset_max_ltv,
        buffer_part,
    );
    assert_eq!(
        borrower_action,
        BorrowerActionResponse::repay(borrowed_amount, Uint256::zero())
    );
}

#[test]
fn borrowed_amount_is_zero() {
    let anchor_apr = AnchorApr {
        earn: Decimal256::from_str("0.20").unwrap(),
        borrow: BorrowNetApr {
            distribution_apr: Decimal256::from_str("0.10").unwrap(),
            interest_apr: Decimal256::from_str("0.05").unwrap(),
        },
    };
    let basset_in_contract_address = Uint256::zero();
    let borrowed_amount = Uint256::zero();
    let locked_basset_amount = Uint256::from(210_000u64);
    let basset_max_ltv = Decimal256::from_str("0.5").unwrap();
    let buffer_part = Decimal256::from_str("0.018").unwrap();
    let ltv_info = LTVInfo {
        basset_price: Decimal256::from_str("5.5").unwrap(),
        borrow_ltv_max: Decimal256::from_str("0.85").unwrap(),
        borrow_ltv_min: Decimal256::from_str("0.75").unwrap(),
        borrow_ltv_aim: Decimal256::from_str("0.8").unwrap(),
    };

    //max_borrow = 210_000 * 5.5 * 0.5 = 577_500
    //ltv = 0.0
    //to_borrow = (0.8 - 0.0) * 577_500 = 462_000
    //buffer_size = 0.018 * 577_500 = 10_395
    let borrower_action = calc_borrower_action(
        Ok(anchor_apr),
        ltv_info,
        basset_in_contract_address,
        borrowed_amount,
        locked_basset_amount,
        basset_max_ltv,
        buffer_part,
    );
    assert_eq!(
        borrower_action,
        BorrowerActionResponse::borrow(Uint256::from(462_000u64), Uint256::from(10_395u64))
    );
}

#[test]
fn asset_price_is_zero() {
    let anchor_apr = AnchorApr {
        earn: Decimal256::from_str("0.20").unwrap(),
        borrow: BorrowNetApr {
            distribution_apr: Decimal256::from_str("0.10").unwrap(),
            interest_apr: Decimal256::from_str("0.05").unwrap(),
        },
    };
    let basset_in_contract_address = Uint256::zero();
    let borrowed_amount = Uint256::from(473_550u64);
    let locked_basset_amount = Uint256::from(210_000u64);
    let basset_max_ltv = Decimal256::from_str("0.5").unwrap();
    let buffer_part = Decimal256::from_str("0.018").unwrap();
    let ltv_info = LTVInfo {
        basset_price: Decimal256::zero(),
        borrow_ltv_max: Decimal256::from_str("0.85").unwrap(),
        borrow_ltv_min: Decimal256::from_str("0.75").unwrap(),
        borrow_ltv_aim: Decimal256::from_str("0.8").unwrap(),
    };

    let borrower_action = calc_borrower_action(
        Ok(anchor_apr),
        ltv_info,
        basset_in_contract_address,
        borrowed_amount,
        locked_basset_amount,
        basset_max_ltv,
        buffer_part,
    );
    assert_eq!(
        borrower_action,
        BorrowerActionResponse::repay(borrowed_amount, Uint256::zero())
    );
}

#[test]
fn price_is_too_old() {
    let borrow_ltv_max = Decimal256::from_str("0.85").unwrap();
    let borrow_ltv_min = Decimal256::from_str("0.75").unwrap();
    let borrow_ltv_aim = Decimal256::from_str("0.8").unwrap();
    let block_time = 100u64;

    //base is old
    {
        let price_response = PriceResponse {
            rate: Decimal256::one(),
            last_updated_base: 40,
            last_updated_quote: 80,
        };

        let ltv_info = LTVInfo::new(
            borrow_ltv_max,
            borrow_ltv_min,
            borrow_ltv_aim,
            50,
            &price_response,
            block_time,
        );

        assert_eq!(
            Decimal256::from_str("0.425").unwrap(),
            ltv_info.borrow_ltv_max
        );
        assert_eq!(
            Decimal256::from_str("0.375").unwrap(),
            ltv_info.borrow_ltv_min
        );
        assert_eq!(
            Decimal256::from_str("0.4").unwrap(),
            ltv_info.borrow_ltv_aim
        );
    }

    //quote is old
    {
        let price_response = PriceResponse {
            rate: Decimal256::one(),
            last_updated_base: 80,
            last_updated_quote: 40,
        };

        let ltv_info = LTVInfo::new(
            borrow_ltv_max,
            borrow_ltv_min,
            borrow_ltv_aim,
            50,
            &price_response,
            block_time,
        );

        assert_eq!(
            Decimal256::from_str("0.425").unwrap(),
            ltv_info.borrow_ltv_max
        );
        assert_eq!(
            Decimal256::from_str("0.375").unwrap(),
            ltv_info.borrow_ltv_min
        );
        assert_eq!(
            Decimal256::from_str("0.4").unwrap(),
            ltv_info.borrow_ltv_aim
        );
    }
}

#[test]
fn price_is_fresh() {
    let borrow_ltv_max = Decimal256::from_str("0.85").unwrap();
    let borrow_ltv_min = Decimal256::from_str("0.75").unwrap();
    let borrow_ltv_aim = Decimal256::from_str("0.8").unwrap();

    let block_time = 100u64;
    let price_response = PriceResponse {
        rate: Decimal256::one(),
        last_updated_base: 80,
        last_updated_quote: 80,
    };

    let ltv_info = LTVInfo::new(
        borrow_ltv_max,
        borrow_ltv_min,
        borrow_ltv_aim,
        50,
        &price_response,
        block_time,
    );

    assert_eq!(borrow_ltv_max, ltv_info.borrow_ltv_max);
    assert_eq!(borrow_ltv_min, ltv_info.borrow_ltv_min);
    assert_eq!(borrow_ltv_aim, ltv_info.borrow_ltv_aim);
}

#[test]
fn loan_equals_to_aim_borrow_amount() {
    let anchor_apr = AnchorApr {
        earn: Decimal256::from_str("0.20").unwrap(),
        borrow: BorrowNetApr {
            distribution_apr: Decimal256::from_str("0.10").unwrap(),
            interest_apr: Decimal256::from_str("0.05").unwrap(),
        },
    };
    let basset_in_contract_address = Uint256::zero();
    let borrowed_amount = Uint256::from(48u64);
    let locked_basset_amount = Uint256::from(100u64);
    let basset_max_ltv = Decimal256::from_str("0.6").unwrap();
    let buffer_part = Decimal256::from_str("0.018").unwrap();
    let ltv_info = LTVInfo {
        basset_price: Decimal256::from_str("1").unwrap(),
        borrow_ltv_max: Decimal256::from_str("0.85").unwrap(),
        borrow_ltv_min: Decimal256::from_str("0.75").unwrap(),
        borrow_ltv_aim: Decimal256::from_str("0.8").unwrap(),
    };

    // aim_borrow_amount = locked_basset_amount * basset_price * basset_max_ltv * borrow_ltv_aim
    // aim_borrow_amount = 100 * 1 * 0,6 * 0,8 = 48 (= borrowed_amount = 48)

    let borrower_action = calc_borrower_action(
        Ok(anchor_apr),
        ltv_info,
        basset_in_contract_address,
        borrowed_amount,
        locked_basset_amount,
        basset_max_ltv,
        buffer_part,
    );
    assert_eq!(borrower_action, BorrowerActionResponse::nothing());
}
