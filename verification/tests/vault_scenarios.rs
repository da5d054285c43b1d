use basset_vault::math::{Decimal256, Uint256};
use basset_vault::response::{ReplyOn, SubMessage, VaultMsg};
use basset_vault::vault::{
    accept_governance, deposit_basset, update_governance_addr, Config, VaultError,
};

const NASSET_TOKEN_ADDR: &str = "addr0001";
const MOCK_CONTRACT_ADDR: &str = "cosmos2contract";
const GOVERNANCE_CONTRACT: &str = "addr0016";
/// The block time of the default test environment, in seconds.
const MOCK_BLOCK_TIME: u64 = 1_571_797_419;

fn config() -> Config {
    Config {
        governance_contract: GOVERNANCE_CONTRACT.to_string(),
        anchor_token: "addr0006".to_string(),
        anchor_overseer_contract: "addr0004".to_string(),
        anchor_market_contract: "addr0007".to_string(),
        anchor_custody_basset_contract: "addr0003".to_string(),
        anchor_basset_reward_contract: "addr0020".to_string(),
        anc_stable_swap_contract: "addr0008".to_string(),
        psi_stable_swap_contract: "addr0009".to_string(),
        basset_token: "addr0002".to_string(),
        aterra_token: "addr0010".to_string(),
        psi_token: "addr0011".to_string(),
        basset_vault_strategy_contract: "addr0012".to_string(),
        stable_denom: "uusd".to_string(),
        claiming_rewards_delay: 1000,
        over_loan_balance_value: Decimal256::from_str("1.01").unwrap(),
        nasset_token: NASSET_TOKEN_ADDR.to_string(),
        psi_distributor: "addr0015".to_string(),
    }
}

fn mint_then_rebalance(recipient: &str, amount: Uint256) -> Vec<SubMessage> {
    vec![
        SubMessage {
            id: 0,
            reply_on: ReplyOn::Never,
            contract_addr: NASSET_TOKEN_ADDR.to_string(),
            msg: VaultMsg::Mint { recipient: recipient.to_string(), amount },
            funds: None,
        },
        SubMessage {
            id: 0,
            reply_on: ReplyOn::Never,
            contract_addr: MOCK_CONTRACT_ADDR.to_string(),
            msg: VaultMsg::Rebalance,
            funds: None,
        },
    ]
}

/// A deposit of `deposit` by `user` with the given supply and balances (the
/// balance on the vault's address includes the deposit).
fn deposit(
    user: &str,
    deposit: Uint256,
    nasset_supply: Uint256,
    basset_in_custody: Uint256,
    basset_in_contract_address: Uint256,
) -> Result<Vec<SubMessage>, VaultError> {
    deposit_basset(
        &config(),
        &MOCK_CONTRACT_ADDR.to_string(),
        &user.to_string(),
        deposit,
        nasset_supply,
        basset_in_custody,
        basset_in_contract_address,
    )
    .map(|response| response.messages)
}

#[test]
fn deposit_basset_deposit_basset() {
    //first farmer come
    let user_1_address = "addr9999";
    let deposit_1_amount = Uint256::from(2_000_000_000u64);
    assert_eq!(
        deposit(user_1_address, deposit_1_amount, Uint256::zero(), Uint256::zero(), deposit_1_amount),
        Ok(mint_then_rebalance(user_1_address, deposit_1_amount))
    );

    //second farmer come
    let user_2_address = "addr6666";
    let deposit_2_amount = Uint256::from(6_000_000_000u64);
    assert_eq!(
        deposit(user_2_address, deposit_2_amount, deposit_1_amount, deposit_1_amount, deposit_2_amount),
        //2B * (6B/8B) / (1 - (6B/8B)) = 6B
        Ok(mint_then_rebalance(user_2_address, Uint256::from(6_000_000_000u64)))
    );
}

#[test]
fn do_not_accept_deposit_if_nluna_supply_is_not_zero_but_bluna_in_custody_is_zero() {
    let user_address = "addr9999";
    let deposit_amount = Uint256::from(2_000_000_000u64);
    let response = deposit(user_address, deposit_amount, Uint256::one(), Uint256::zero(), deposit_amount);
    assert_eq!(response, Err(VaultError::Frozen));
}

#[test]
fn deposit_basset_as_first_depositor_after_someone_transfer_some_bassets_directly_to_contract() {
    let user_address = "addr9999";
    let deposit_amount = Uint256::from(2_000_000_000u64);
    let basset_directly_tranfered_amount = Uint256::from(10_000_000_000u64);
    let total_basset_amount = deposit_amount.add(basset_directly_tranfered_amount);
    assert_eq!(
        deposit(user_address, deposit_amount, Uint256::zero(), Uint256::zero(), total_basset_amount),
        // first depositer have same amount
        Ok(mint_then_rebalance(user_address, total_basset_amount))
    );
}

#[test]
fn deposit_basset_after_someone_transfer_some_bassets_directly_to_contract_while_anchor() {
    let user_address = "addr9999";
    let deposited_earlier = Uint256::from(5_000_000_000u64);
    let deposit_amount = Uint256::from(2_000_000_000u64);
    let basset_directly_tranfered_amount = Uint256::from(10_000_000_000u64);
    let total_basset_amount = deposit_amount.add(basset_directly_tranfered_amount);
    // Someone had deposited bAssets earlier and now they are in anchor
    assert_eq!(
        deposit(user_address, deposit_amount, deposited_earlier, deposited_earlier, total_basset_amount),
        // what user deposited + that someone deposited directly
        Ok(mint_then_rebalance(user_address, total_basset_amount))
    );
}

#[test]
fn deposit_basset_after_someone_transfer_some_bassets_directly_to_contract_while_holding() {
    let user_address = "addr9999";
    let deposited_earlier = Uint256::from(5_000_000_000u64);
    let deposit_amount = Uint256::from(2_000_000_000u64);
    let basset_directly_tranfered_amount = Uint256::from(10_000_000_000u64);
    let total_basset_amount = deposited_earlier.add(deposit_amount).add(basset_directly_tranfered_amount);
    // Someone had deposited bAssets earlier and now vault is holding them
    let expected_nasset_to_mint = deposited_earlier
        .mul(deposit_amount)
        .div_dec(Decimal256::from_uint256(deposited_earlier.add(basset_directly_tranfered_amount)));
    assert_eq!(
        deposit(user_address, deposit_amount, deposited_earlier, Uint256::zero(), total_basset_amount),
        Ok(mint_then_rebalance(user_address, expected_nasset_to_mint))
    );
}

#[test]
fn change_governance_addr_success_to_change_governance_if_sender_governance() {
    let new_gov_addr = "addr9994".to_string();
    let seconds_to_wait_for_accept_gov_tx = 60;
    let gov_update_state = update_governance_addr(new_gov_addr.clone(), MOCK_BLOCK_TIME, seconds_to_wait_for_accept_gov_tx);
    assert_eq!(new_gov_addr, gov_update_state.new_governance_contract_addr);
    assert_eq!(seconds_to_wait_for_accept_gov_tx + MOCK_BLOCK_TIME, gov_update_state.wait_approve_until);

    let (config, _) = accept_governance(config(), &gov_update_state, MOCK_BLOCK_TIME + 20, &new_gov_addr).unwrap();
    assert_eq!(config.governance_contract, new_gov_addr);
}

#[test]
fn change_governance_addr_fail_to_accept_governance_if_sender_is_wrong() {
    let new_gov_addr = "addr9994".to_string();
    let random_sender = "anyone".to_string();
    let gov_update_state = update_governance_addr(new_gov_addr.clone(), MOCK_BLOCK_TIME, 60);
    assert_eq!(new_gov_addr, gov_update_state.new_governance_contract_addr);
    let res = accept_governance(config(), &gov_update_state, MOCK_BLOCK_TIME + 20, &random_sender);
    assert_eq!(res, Err(VaultError::Unauthorized));
}

#[test]
fn change_governance_addr_too_late_to_change_governance() {
    let new_gov_addr = "addr9994".to_string();
    let seconds_to_wait_for_accept_gov_tx = 60;
    let gov_update_state = update_governance_addr(new_gov_addr.clone(), MOCK_BLOCK_TIME, seconds_to_wait_for_accept_gov_tx);
    let res = accept_governance(
        config(),
        &gov_update_state,
        MOCK_BLOCK_TIME + seconds_to_wait_for_accept_gov_tx + 1,
        &new_gov_addr,
    );
    assert_eq!(res, Err(VaultError::TooLateToAcceptGovernance));
}

#[test]
fn change_governance_addr_rewrite_new_gov_address_by_sending_second_update_gov_message() {
    let new_gov_addr = "addr9994".to_string();
    let wrong_gov_address = "wrong_address".to_string();
    let seconds_to_wait_for_accept_gov_tx = 60;
    let first = update_governance_addr(wrong_gov_address.clone(), MOCK_BLOCK_TIME, seconds_to_wait_for_accept_gov_tx);
    assert_eq!(wrong_gov_address, first.new_governance_contract_addr);
    assert_eq!(seconds_to_wait_for_accept_gov_tx + MOCK_BLOCK_TIME, first.wait_approve_until);
    // the second update replaces the first
    let second = update_governance_addr(new_gov_addr.clone(), MOCK_BLOCK_TIME + 22, seconds_to_wait_for_accept_gov_tx);
    assert_eq!(new_gov_addr, second.new_governance_contract_addr);
    assert_eq!(seconds_to_wait_for_accept_gov_tx + MOCK_BLOCK_TIME + 22, second.wait_approve_until);
}
