use basset_vault::math::Decimal256;
use basset_vault::strategy::Config;

const PRICE_TIMEFRAME: u64 = 60;

#[test]
fn fail_to_initiate_with_wrong_values() {
    // max = aim
    let creation_res = Config::new(
        "addr0001".to_string(),
        "addr0001".to_string(),
        "addr0001".to_string(),
        "uust".to_string(),
        Decimal256::from_str("0.8").unwrap(),
        Decimal256::from_str("0.75").unwrap(),
        Decimal256::from_str("0.8").unwrap(),
        Decimal256::from_str("0.5").unwrap(),
        Decimal256::from_str("0.018").unwrap(),
        PRICE_TIMEFRAME,
    );
    assert!(creation_res.is_err());

    // min = aim
    let creation_res = Config::new(
        "addr0001".to_string(),
        "addr0001".to_string(),
        "addr0001".to_string(),
        "uust".to_string(),
        Decimal256::from_str("0.85").unwrap(),
        Decimal256::from_str("0.8").unwrap(),
        Decimal256::from_str("0.8").unwrap(),
        Decimal256::from_str("0.5").unwrap(),
        Decimal256::from_str("0.018").unwrap(),
        PRICE_TIMEFRAME,
    );
    assert!(creation_res.is_err());

    // min > max
    let creation_res = Config::new(
        "addr0001".to_string(),
        "addr0001".to_string(),
        "addr0001".to_string(),
        "uust".to_string(),
        Decimal256::from_str("0.85").unwrap(),
        Decimal256::from_str("0.9").unwrap(),
        Decimal256::from_str("0.8").unwrap(),
        Decimal256::from_str("0.5").unwrap(),
        Decimal256::from_str("0.018").unwrap(),
        PRICE_TIMEFRAME,
    );
    assert!(creation_res.is_err());

    // max < min
    let creation_res = Config::new(
        "addr0001".to_string(),
        "addr0001".to_string(),
        "addr0001".to_string(),
        "uust".to_string(),
        Decimal256::from_str("0.4").unwrap(),
        Decimal256::from_str("0.6").unwrap(),
        Decimal256::from_str("0.8").unwrap(),
        Decimal256::from_str("0.5").unwrap(),
        Decimal256::from_str("0.018").unwrap(),
        PRICE_TIMEFRAME,
    );
    assert!(creation_res.is_err());

    // max > 1
    let creation_res = Config::new(
        "addr0001".to_string(),
        "addr0001".to_string(),
        "addr0001".to_string(),
        "uust".to_string(),
        Decimal256::from_str("1.4").unwrap(),
        Decimal256::from_str("0.6").unwrap(),
        Decimal256::from_str("0.8").unwrap(),
        Decimal256::from_str("0.5").unwrap(),
        Decimal256::from_str("0.018").unwrap(),
        PRICE_TIMEFRAME,
    );
    assert!(creation_res.is_err());

    // buffer > 1
    let creation_res = Config::new(
        "addr0001".to_string(),
        "addr0001".to_string(),
        "addr0001".to_string(),
        "uust".to_string(),
        Decimal256::from_str("0.9").unwrap(),
        Decimal256::from_str("0.6").unwrap(),
        Decimal256::from_str("0.8").unwrap(),
        Decimal256::from_str("0.5").unwrap(),
        Decimal256::from_str("1.1").unwrap(),
        PRICE_TIMEFRAME,
    );
    assert!(creation_res.is_err());

    // buffer = 0
    let creation_res = Config::new(
        "addr0001".to_string(),
        "addr0001".to_string(),
        "addr0001".to_string(),
        "uust".to_string(),
        Decimal256::from_str("0.9").unwrap(),
        Decimal256::from_str("0.6").unwrap(),
        Decimal256::from_str("0.8").unwrap(),
        Decimal256::from_str("0.5").unwrap(),
        Decimal256::zero(),
        PRICE_TIMEFRAME,
    );
    assert!(creation_res.is_err());
}

#[test]
fn fail_to_update_with_wrong_values() {
    let mut config = Config::new(
        "addr0001".to_string(),
        "addr0001".to_string(),
        "addr0001".to_string(),
        "uust".to_string(),
        Decimal256::from_str("0.9").unwrap(),
        Decimal256::from_str("0.6").unwrap(),
        Decimal256::from_str("0.8").unwrap(),
        Decimal256::from_str("0.5").unwrap(),
        Decimal256::from_str("0.018").unwrap(),
        PRICE_TIMEFRAME,
    )
    .unwrap();

    assert!(config.set_basset_max_ltv(Decimal256::zero()).is_err());
    assert!(config
        .set_basset_max_ltv(Decimal256::from_str("1.5").unwrap())
        .is_err());

    assert!(config.set_buffer_part(Decimal256::zero()).is_err());
    assert!(config
        .set_buffer_part(Decimal256::from_str("1.5").unwrap())
        .is_err());

    let update_res = config.validate_and_set_borrow_ltvs(
        Decimal256::from_str("1.5").unwrap(),
        config.get_borrow_ltv_min(),
        config.get_borrow_ltv_aim(),
    );
    assert!(update_res.is_err());
    let update_res = config.validate_and_set_borrow_ltvs(
        Decimal256::from_str("0.5").unwrap(),
        config.get_borrow_ltv_min(),
        config.get_borrow_ltv_aim(),
    );
    assert!(update_res.is_err());
    let update_res = config.validate_and_set_borrow_ltvs(
        Decimal256::from_str("0.8").unwrap(),
        config.get_borrow_ltv_min(),
        config.get_borrow_ltv_aim(),
    );
    assert!(update_res.is_err());

    let update_res = config.validate_and_set_borrow_ltvs(
        config.get_borrow_ltv_max(),
        Decimal256::from_str("0.8").unwrap(),
        config.get_borrow_ltv_aim(),
    );
    assert!(update_res.is_err());
    let update_res = config.validate_and_set_borrow_ltvs(
        config.get_borrow_ltv_max(),
        Decimal256::from_str("0.95").unwrap(),
        config.get_borrow_ltv_aim(),
    );
    assert!(update_res.is_err());

    let update_res = config.validate_and_set_borrow_ltvs(
        config.get_borrow_ltv_max(),
        config.get_borrow_ltv_min(),
        Decimal256::from_str("0.95").unwrap(),
    );
    assert!(update_res.is_err());
    let update_res = config.validate_and_set_borrow_ltvs(
        config.get_borrow_ltv_max(),
        config.get_borrow_ltv_min(),
        Decimal256::from_str("0.5").unwrap(),
    );
    assert!(update_res.is_err());
}
