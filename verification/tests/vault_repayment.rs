use basset_vault::math::{Decimal256, Uint256};
use basset_vault::rebalance::{handle_borrower_action, StoreUpdate, VaultBalances};
use basset_vault::response::{Coin, ReplyOn, Response, SubMessage, VaultMsg};
use basset_vault::strategy::BorrowerActionResponse;
use basset_vault::tax::TaxInfo;
use basset_vault::vault::{
    redeem_stable_on_repay_loan_reply, repay_logic, repay_logic_on_reply,
    update_loan_state_part_of_loan_repaid, Config, RedeemReply, RepayIteration, RepayingLoanState,
    SubmsgIds, VaultError, LOAN_REPAYMENT_MAX_RECURSION_DEEP, TOO_HIGH_BORROW_DEMAND_ERR_MSG,
};

const ANCHOR_MARKET_CONTRACT: &str = "addr0007";
const ATERRA_TOKEN: &str = "addr0010";
const STABLE_DENOM: &str = "uusd";

fn config() -> Config {
    Config {
        governance_contract: "addr0016".to_string(),
        anchor_token: "addr0006".to_string(),
        anchor_overseer_contract: "addr0004".to_string(),
        anchor_market_contract: ANCHOR_MARKET_CONTRACT.to_string(),
        anchor_custody_basset_contract: "addr0003".to_string(),
        anchor_basset_reward_contract: "addr0020".to_string(),
        anc_stable_swap_contract: "addr0008".to_string(),
        psi_stable_swap_contract: "addr0009".to_string(),
        basset_token: "addr0002".to_string(),
        aterra_token: ATERRA_TOKEN.to_string(),
        psi_token: "addr0011".to_string(),
        basset_vault_strategy_contract: "addr0012".to_string(),
        stable_denom: STABLE_DENOM.to_string(),
        claiming_rewards_delay: 1000,
        over_loan_balance_value: Decimal256::from_str("1.01").unwrap(),
        nasset_token: "addr0001".to_string(),
        psi_distributor: "addr0015".to_string(),
    }
}

/// The vault's balances and its stored repayment, driven through the
/// library as the contract's entry points drive it.
struct Vault {
    stable_balance: Uint256,
    aterra_balance: Uint256,
    aterra_exchange_rate: Decimal256,
    tax_info: TaxInfo,
    repaying: RepayingLoanState,
}

impl Vault {
    fn new(stable: u64, aterra: u64, rate: &str, tax_info: TaxInfo) -> Vault {
        Vault {
            stable_balance: Uint256::from(stable),
            aterra_balance: Uint256::from(aterra),
            aterra_exchange_rate: Decimal256::from_str(rate).unwrap(),
            tax_info,
            repaying: RepayingLoanState::start(Uint256::zero(), Uint256::zero()),
        }
    }

    fn balances(&self) -> VaultBalances {
        VaultBalances {
            basset_in_contract_address: Uint256::zero(),
            basset_in_custody: Uint256::zero(),
            stable_coin_balance: self.stable_balance,
            aterra_balance: self.aterra_balance,
            aterra_exchange_rate: self.aterra_exchange_rate,
            loan_amount: Uint256::zero(),
            tax_info: self.tax_info,
        }
    }

    /// The strategy advises a repayment.
    fn rebalance(&mut self, amount: u64, advised_buffer_size: u64) -> Response {
        let advice = BorrowerActionResponse::Repay {
            amount: Uint256::from(amount),
            advised_buffer_size: Uint256::from(advised_buffer_size),
        };
        let (response, store) = handle_borrower_action(&config(), &self.balances(), &advice).unwrap();
        match store {
            Some(StoreUpdate::RepayingLoan(state)) => self.repaying = state,
            _ => panic!("a repayment stores its state"),
        }
        response
    }

    /// The reply to a redemption; the stored state changes only on success.
    fn redeem_reply(&mut self, result: Result<(), String>) -> Result<Response, VaultError> {
        match redeem_stable_on_repay_loan_reply(result)? {
            RedeemReply::NextRepayStep => {},
        }
        match repay_logic_on_reply(self.repaying, LOAN_REPAYMENT_MAX_RECURSION_DEEP)? {
            RepayIteration::Done => Ok(Response::new()),
            RepayIteration::Continue(next) => {
                let (state, response) = repay_logic(
                    &config(),
                    next,
                    self.stable_balance,
                    self.aterra_balance,
                    self.aterra_exchange_rate,
                    &self.tax_info,
                );
                self.repaying = state;
                Ok(response)
            },
        }
    }

    fn aterra_redeem_success(&mut self) -> Result<Response, VaultError> {
        self.redeem_reply(Ok(()))
    }

    fn aterra_redeed_failed(&mut self) -> Result<Response, VaultError> {
        self.redeem_reply(Err(format!("fail to redeem aterra, cause: {}", TOO_HIGH_BORROW_DEMAND_ERR_MSG)))
    }

    fn continue_repay_loan(&mut self) {
        self.repaying = update_loan_state_part_of_loan_repaid(self.repaying);
    }
}

fn no_tax() -> TaxInfo {
    TaxInfo { rate: Decimal256::zero(), cap: Uint256::from(99_999_999_999u64) }
}

fn redeem(amount: Uint256, reply_on: ReplyOn) -> SubMessage {
    SubMessage {
        id: SubmsgIds::RedeemStableOnRepayLoan.id(),
        reply_on,
        contract_addr: ATERRA_TOKEN.to_string(),
        msg: VaultMsg::RedeemStable { market: ANCHOR_MARKET_CONTRACT.to_string(), amount },
        funds: None,
    }
}

fn repay(amount: Uint256) -> SubMessage {
    SubMessage {
        id: SubmsgIds::RepayLoan.id(),
        reply_on: ReplyOn::Success,
        contract_addr: ANCHOR_MARKET_CONTRACT.to_string(),
        msg: VaultMsg::AnchorRepayStable,
        funds: Some(Coin { denom: STABLE_DENOM.to_string(), amount }),
    }
}

#[test]
fn repay_loan_repay_loan_without_problems() {
    let tax_info = TaxInfo { rate: Decimal256::from_str("0.2").unwrap(), cap: Uint256::from(10u64) };
    let mut vault = Vault::new(200, 200, "1.2", tax_info);
    let loan_to_repay = Uint256::from(10_000u64);
    let advised_buffer_size = Uint256::from(50u64);

    // -= REBALANCE =-
    let response = vault.rebalance(10_000, 50);
    assert_eq!(response.messages, vec![redeem(Uint256::from(200u64), ReplyOn::Always)]);
    assert_eq!(vault.repaying.iteration_index, 0);
    assert_eq!(vault.repaying.to_repay_amount, loan_to_repay);
    assert_eq!(vault.repaying.repaying_amount, Uint256::zero());
    assert_eq!(vault.repaying.aim_buffer_size, advised_buffer_size);

    // -= ANCHOR REDEEM SUCCESSFULL =-
    // anchor sends the stables for the aterra (200 * 1.2), less the capped tax of 10
    vault.stable_balance = Uint256::from(200u64).add(Uint256::from(240u64)).sub(Uint256::from(10u64));
    vault.aterra_balance = Uint256::zero();
    let response = vault.aterra_redeem_success().unwrap();
    // one more tax of 10 to send the repayment
    let repay_amount = Uint256::from(420u64);
    assert_eq!(response.messages, vec![repay(repay_amount)]);
    assert_eq!(vault.repaying.iteration_index, 1);
    assert_eq!(vault.repaying.to_repay_amount, loan_to_repay);
    assert_eq!(vault.repaying.repaying_amount, repay_amount);
    assert_eq!(vault.repaying.aim_buffer_size, advised_buffer_size);
}

#[test]
fn repay_loan_repay_loan_fail_to_redeem_aterra() {
    let mut vault = Vault::new(5_000, 7_000, "1.25", no_tax());

    // -= asking for REPAY =-
    let response = vault.rebalance(10_000, 5_000);
    assert_eq!(response.messages, vec![redeem(Uint256::from(7_000u64), ReplyOn::Always)]);

    // -= REDEEM failed =-
    // repay the loan with the buffer and redeem aterra for that amount (4000 * 1.25 = 5k)
    let response = vault.aterra_redeed_failed().unwrap();
    assert_eq!(
        response.messages,
        vec![repay(Uint256::from(5_000u64)), redeem(Uint256::from(4_000u64), ReplyOn::Success)]
    );

    // -= REDEEM SUCCEEDED =-
    vault.aterra_balance = Uint256::from(3_000u64);
    vault.continue_repay_loan();
    assert_eq!(vault.repaying.to_repay_amount, Uint256::from(5_000u64));
    let response = vault.aterra_redeem_success().unwrap();
    // sell the rest of the aterra, 3k (3000 * 1.25 = 3750)
    assert_eq!(
        response.messages,
        vec![repay(Uint256::from(5_000u64)), redeem(Uint256::from(3_000u64), ReplyOn::Success)]
    );

    // -= third step =-
    vault.aterra_balance = Uint256::zero();
    vault.continue_repay_loan();
    assert_eq!(vault.repaying.to_repay_amount, Uint256::zero());
    let response = vault.aterra_redeem_success().unwrap();
    assert_eq!(response, Response::new());
}

#[test]
fn limited_recursion_depth_all_errors() {
    let mut vault = Vault::new(5_000, 7_000, "1.25", no_tax());
    vault.rebalance(10_000, 5_000);
    for repaying_index in 1..LOAN_REPAYMENT_MAX_RECURSION_DEEP {
        let response = vault.aterra_redeed_failed().unwrap();
        assert_eq!(
            response.messages,
            vec![repay(Uint256::from(5_000u64)), redeem(Uint256::from(4_000u64), ReplyOn::Success)]
        );
        assert_eq!(vault.repaying.iteration_index, repaying_index);
    }
    assert_eq!(vault.aterra_redeed_failed(), Err(VaultError::FailToRepayLoan));
}

#[test]
fn limited_recursion_depth_repayed_something() {
    let mut vault = Vault::new(5_000, 7_000, "1.25", no_tax());
    vault.rebalance(10_000, 5_000);
    for repaying_index in 2..LOAN_REPAYMENT_MAX_RECURSION_DEEP {
        let response = vault.aterra_redeed_failed().unwrap();
        assert_eq!(
            response.messages,
            vec![repay(Uint256::from(5_000u64)), redeem(Uint256::from(4_000u64), ReplyOn::Success)]
        );
        assert_eq!(vault.repaying.iteration_index, repaying_index - 1);
    }
    //one repaying is OK!
    vault.continue_repay_loan();
    assert!(vault.aterra_redeed_failed().is_ok());
}

#[test]
fn reset_iteration_index() {
    let mut vault = Vault::new(5_000, 7_000, "1.25", no_tax());
    vault.rebalance(10_000, 5_000);
    for _ in 1..LOAN_REPAYMENT_MAX_RECURSION_DEEP {
        assert!(vault.aterra_redeed_failed().is_ok());
    }
    assert!(vault.aterra_redeed_failed().is_err());
    assert_eq!(vault.repaying.iteration_index, LOAN_REPAYMENT_MAX_RECURSION_DEEP - 1);

    // -= SECOND REPAY =-
    vault.rebalance(10_000, 5_000);
    assert_eq!(vault.repaying.iteration_index, 0);
}
