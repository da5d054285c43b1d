use basset_vault::init::{
    instantiated_contract_address, next_init_step, pair_contract_address, start_set_up, ChildContractsInfo,
    InitProgress,
};
use basset_vault::math::Decimal256;
use basset_vault::response::{Attribute, ReplyOn, SubMessage, VaultMsg};
use basset_vault::vault::{Config, SubmsgIds, VaultError};

fn config() -> Config {
    Config {
        governance_contract: "gov".to_string(),
        anchor_token: "anc".to_string(),
        anchor_overseer_contract: "overseer".to_string(),
        anchor_market_contract: "market".to_string(),
        anchor_custody_basset_contract: "custody".to_string(),
        anchor_basset_reward_contract: "basset_reward".to_string(),
        anc_stable_swap_contract: "anc_swap".to_string(),
        psi_stable_swap_contract: "psi_swap".to_string(),
        basset_token: "basset".to_string(),
        aterra_token: "aterra".to_string(),
        psi_token: "psi".to_string(),
        basset_vault_strategy_contract: "strategy".to_string(),
        stable_denom: "uusd".to_string(),
        claiming_rewards_delay: 1000,
        over_loan_balance_value: Decimal256::from_str("1.01").unwrap(),
        nasset_token: "nasset".to_string(),
        psi_distributor: "".to_string(),
    }
}

fn child() -> ChildContractsInfo {
    ChildContractsInfo {
        nasset_token_code_id: 10,
        nasset_token_rewards_code_id: 11,
        psi_distributor_code_id: 12,
        collateral_token_symbol: "Luna".to_string(),
        community_pool_contract_addr: "community".to_string(),
        manual_ltv: Decimal256::from_str("0.5").unwrap(),
        fee_rate: Decimal256::from_str("0.25").unwrap(),
        tax_rate: Decimal256::from_str("0.1").unwrap(),
    }
}

fn progress(pair: Option<&str>) -> InitProgress {
    InitProgress {
        contract_address: "vault".to_string(),
        terraswap_factory: "factory".to_string(),
        nasset_token_config_holder: "holder".to_string(),
        nasset_psi_swap_contract: pair.map(|p| p.to_string()),
    }
}

fn attrs(pairs: &[(&str, &str)]) -> Vec<Attribute> {
    pairs.iter().map(|(k, v)| Attribute { key: k.to_string(), value: v.to_string() }).collect()
}

/// The protobuf encoding of `MsgInstantiateContractResponse { contract_address, data }`.
fn instantiate_response(contract_address: &str, data: &[u8]) -> Vec<u8> {
    let mut bytes = vec![0x0a, contract_address.len() as u8];
    bytes.extend_from_slice(contract_address.as_bytes());
    if !data.is_empty() {
        bytes.push(0x12);
        bytes.push(data.len() as u8);
        bytes.extend_from_slice(data);
    }
    bytes
}

#[test]
fn instantiation_reply_names_the_contract() {
    let bytes = instantiate_response("terra1holder", &[]);
    assert_eq!(instantiated_contract_address(&bytes), Ok("terra1holder".to_string()));
    let bytes = instantiate_response("terra1token", &[1, 2, 3]);
    assert_eq!(instantiated_contract_address(&bytes), Ok("terra1token".to_string()));
}

#[test]
fn unreadable_instantiation_reply_is_refused() {
    // a length running past the end of the data
    assert_eq!(instantiated_contract_address(&[0x0a, 0x05, b'a']), Err(VaultError::InstantiateResponseUnreadable));
    // the address is not UTF-8
    assert_eq!(instantiated_contract_address(&[0x0a, 0x01, 0xff]), Err(VaultError::InstantiateResponseUnreadable));
}

#[test]
fn config_holder_is_followed_by_the_nasset_token() {
    let response =
        next_init_step(SubmsgIds::InitNAssetConfigHolder, "holder".to_string(), &child(), &config(), &progress(None))
            .unwrap();
    assert_eq!(
        response.messages,
        vec![SubMessage {
            id: SubmsgIds::InitNAsset.id(),
            reply_on: ReplyOn::Success,
            contract_addr: "".to_string(),
            msg: VaultMsg::InstantiateNAssetToken {
                admin: "gov".to_string(),
                code_id: 10,
                name: "Nexus bLuna token share representation".to_string(),
                symbol: "nLuna".to_string(),
                minter: "vault".to_string(),
                config_holder: "holder".to_string(),
            },
            funds: None,
        }]
    );
    assert_eq!(
        response.attributes,
        attrs(&[("action", "nasset_token_config_holder_initialized"), ("nasset_token_config_holder_addr", "holder")])
    );
}

#[test]
fn nasset_token_is_followed_by_the_pair() {
    let response =
        next_init_step(SubmsgIds::InitNAsset, "nasset".to_string(), &child(), &config(), &progress(None)).unwrap();
    assert_eq!(
        response.messages,
        vec![SubMessage {
            id: SubmsgIds::InitNAssetPsiSwapPair.id(),
            reply_on: ReplyOn::Always,
            contract_addr: "factory".to_string(),
            msg: VaultMsg::CreatePair { token_a: "nasset".to_string(), token_b: "psi".to_string() },
            funds: None,
        }]
    );
    assert_eq!(response.attributes, attrs(&[("action", "nasset_token_initialized"), ("nasset_token_addr", "nasset")]));
}

#[test]
fn pair_is_followed_by_the_token_rewards() {
    let response =
        next_init_step(SubmsgIds::InitNAssetPsiSwapPair, "pair".to_string(), &child(), &config(), &progress(Some("pair")))
            .unwrap();
    assert_eq!(
        response.messages,
        vec![SubMessage {
            id: SubmsgIds::InitNAssetRewards.id(),
            reply_on: ReplyOn::Success,
            contract_addr: "".to_string(),
            msg: VaultMsg::InstantiateNAssetRewards {
                admin: "gov".to_string(),
                code_id: 11,
                psi_token: "psi".to_string(),
                nasset_token: "nasset".to_string(),
                governance: "gov".to_string(),
            },
            funds: None,
        }]
    );
    assert_eq!(
        response.attributes,
        attrs(&[("action", "nasset_psi_swap_pair_initialized"), ("nasset_psi_swap_contract_addr", "pair")])
    );
}

#[test]
fn token_rewards_are_followed_by_the_psi_distributor() {
    let response =
        next_init_step(SubmsgIds::InitNAssetRewards, "rewards".to_string(), &child(), &config(), &progress(Some("pair")))
            .unwrap();
    assert_eq!(
        response.messages,
        vec![
            SubMessage {
                id: SubmsgIds::InitPsiDistributor.id(),
                reply_on: ReplyOn::Success,
                contract_addr: "".to_string(),
                msg: VaultMsg::InstantiatePsiDistributor {
                    admin: "gov".to_string(),
                    code_id: 12,
                    psi_token: "psi".to_string(),
                    nasset_token_rewards: "rewards".to_string(),
                    governance: "gov".to_string(),
                    strategy: "strategy".to_string(),
                    nasset_psi_swap: "pair".to_string(),
                    community_pool: "community".to_string(),
                    manual_ltv: Decimal256::from_str("0.5").unwrap(),
                    fee_rate: Decimal256::from_str("0.25").unwrap(),
                    tax_rate: Decimal256::from_str("0.1").unwrap(),
                },
                funds: None,
            },
            SubMessage {
                id: 0,
                reply_on: ReplyOn::Never,
                contract_addr: "holder".to_string(),
                msg: VaultMsg::SetTokenRewardsContract { rewards: "rewards".to_string() },
                funds: None,
            },
        ]
    );
    assert_eq!(
        response.attributes,
        attrs(&[("action", "nasset_token_rewards_initialized"), ("nasset_token_rewards_addr", "rewards")])
    );
    assert_eq!(
        next_init_step(SubmsgIds::InitNAssetRewards, "rewards".to_string(), &child(), &config(), &progress(None)),
        Err(VaultError::NAssetPsiPairMissing)
    );
}

#[test]
fn psi_distributor_ends_the_set_up() {
    let response =
        next_init_step(SubmsgIds::InitPsiDistributor, "distributor".to_string(), &child(), &config(), &progress(Some("pair")))
            .unwrap();
    assert!(response.messages.is_empty());
    assert_eq!(
        response.attributes,
        attrs(&[("action", "psi_distributor_initialized"), ("psi_distributor_addr", "distributor")])
    );
}

#[test]
fn pair_address_is_the_first_one_reported() {
    let events = attrs(&[("action", "create_pair"), ("pair_contract_addr", "pair1"), ("pair_contract_addr", "pair2")]);
    assert_eq!(pair_contract_address(&events), Some("pair1".to_string()));
    assert_eq!(pair_contract_address(&attrs(&[("action", "create_pair")])), None);
}

#[test]
fn set_up_starts_with_the_config_holder() {
    let (cfg, response) = start_set_up(config(), 7);
    assert_eq!(cfg.nasset_token, "");
    assert_eq!(cfg.psi_distributor, "");
    assert_eq!(cfg.governance_contract, "gov");
    assert_eq!(cfg.psi_token, "psi");
    assert_eq!(
        response.messages,
        vec![SubMessage {
            id: SubmsgIds::InitNAssetConfigHolder.id(),
            reply_on: ReplyOn::Success,
            contract_addr: "".to_string(),
            msg: VaultMsg::InstantiateConfigHolder { admin: "gov".to_string(), code_id: 7, governance: "gov".to_string() },
            funds: None,
        }]
    );
    assert!(response.attributes.is_empty());
}
