//! Setting up the vault's child contracts. The vault instantiates them one
//! after the other: each reply names the contract just created, and the
//! vault answers with the next step.
use vstd::prelude::*;
use crate::math::Decimal256;
use crate::response::{Attribute, ReplyOn, Response, SubMessage, VaultMsg, attr, attr_str};
use crate::vault::{Config, SubmsgIds, VaultError, plain, submsg_id_spec, with_reply};

verus! {

/// The address named in the data of an instantiation reply (Terra's
/// `MsgInstantiateContractResponse`), or `None` when the data does not
/// decode.
pub uninterp spec fn instantiate_response_address(data: Seq<u8>) -> Option<Seq<char>>;

/// `protobuf::Message::parse_from_bytes` on Terra's
/// `MsgInstantiateContractResponse { string contract_address = 1; bytes data = 2; }`.
/// That message has the field numbers and wire types of protobuf's
/// well-known `Any` (`string type_url = 1; bytes value = 2;`), so it is
/// decoded as one and its first field is the address. The contract claims
/// only that the outcome is a function of the bytes
/// (`instantiate_response_address`), not how protobuf decodes them.
#[verifier::external_body]
fn ext_parse_instantiate_response(data: &[u8]) -> (r: Option<String>)
    ensures
        r matches Some(s) ==> instantiate_response_address(data@) == Some(s@),
        r is None ==> instantiate_response_address(data@) is None,
{
    match <protobuf::well_known_types::Any as protobuf::Message>::parse_from_bytes(data) {
        Ok(response) => Some(response.type_url),
        Err(_) => None,
    }
}

/// The address of a new child contract, read from the data of the reply to
/// its instantiation; refused when the data does not decode.
pub fn instantiated_contract_address(data: &[u8]) -> (r: Result<String, VaultError>)
    ensures
        match instantiate_response_address(data@) {
            Some(address) => r matches Ok(s) && s@ == address,
            None => r == Err::<String, VaultError>(VaultError::InstantiateResponseUnreadable),
        },
{
    match ext_parse_instantiate_response(data) {
        Some(address) => Ok(address),
        None => Err(VaultError::InstantiateResponseUnreadable),
    }
}

/// The key under which the Terraswap factory reports a new pair.
pub open spec fn pair_key() -> Seq<char> {
    "pair_contract_addr"@
}

/// The address of the nAsset/PSI pair: the value of the first attribute
/// `pair_contract_addr` among those the pair creation emitted.
pub fn pair_contract_address(attributes: &Vec<Attribute>) -> (r: Option<String>)
    ensures
        r is None <==> forall|i: int| 0 <= i < attributes@.len() ==> attributes@[i].key@ != pair_key(),
        r matches Some(address) ==> exists|i: int|
            {
                &&& 0 <= i < attributes@.len()
                &&& attributes@[i].key@ == pair_key()
                &&& attributes@[i].value == address
                &&& forall|j: int| 0 <= j < i ==> attributes@[j].key@ != pair_key()
            },
{
    let key = "pair_contract_addr".to_owned();
    let mut i: usize = 0;
    while i < attributes.len()
        invariant
            i <= attributes@.len(),
            key@ == pair_key(),
            forall|j: int| 0 <= j < i ==> attributes@[j].key@ != pair_key(),
        decreases attributes@.len() - i,
    {
        if attributes[i].key == key {
            return Some(attributes[i].value.clone());
        }
        i = i + 1;
    }
    None
}

/// What the vault keeps to instantiate its child contracts.
#[derive(Clone, Debug, PartialEq, Eq)]
pub struct ChildContractsInfo {
    pub nasset_token_code_id: u64,
    pub nasset_token_rewards_code_id: u64,
    pub psi_distributor_code_id: u64,
    pub collateral_token_symbol: String,
    pub community_pool_contract_addr: String,
    pub manual_ltv: Decimal256,
    pub fee_rate: Decimal256,
    pub tax_rate: Decimal256,
}

/// What the set-up has learned besides the configuration.
#[derive(Clone, Debug, PartialEq, Eq)]
pub struct InitProgress {
    /// The vault's own address.
    pub contract_address: String,
    /// The Terraswap factory that creates the nAsset/PSI pair.
    pub terraswap_factory: String,
    /// The nAsset token config holder, once instantiated.
    pub nasset_token_config_holder: String,
    /// The nAsset/PSI pair, once created.
    pub nasset_psi_swap_contract: Option<String>,
}

/// The start of the set-up: the configuration, whose child contracts are
/// not known yet (their addresses are empty), and the instantiation of the
/// nAsset token config holder, governed by and administered by the
/// governance contract.
pub fn start_set_up(config: Config, config_holder_code_id: u64) -> (r: (Config, Response))
    ensures
        r.0 == (Config { nasset_token: r.0.nasset_token, psi_distributor: r.0.psi_distributor, ..config }),
        r.0.nasset_token@.len() == 0,
        r.0.psi_distributor@.len() == 0,
        r.1.messages@.len() == 1,
        instantiation(r.1.messages@[0], SubmsgIds::InitNAssetConfigHolder),
        r.1.messages@[0].msg == (VaultMsg::InstantiateConfigHolder {
            admin: config.governance_contract,
            code_id: config_holder_code_id,
            governance: config.governance_contract,
        }),
        r.1.attributes@.len() == 0,
{
    let mut config = config;
    config.nasset_token = String::new();
    config.psi_distributor = String::new();
    let mut response = Response::new();
    response.messages.push(
        with_reply(
            SubmsgIds::InitNAssetConfigHolder,
            ReplyOn::Success,
            String::new(),
            VaultMsg::InstantiateConfigHolder {
                admin: config.governance_contract.clone(),
                code_id: config_holder_code_id,
                governance: config.governance_contract.clone(),
            },
            None,
        ),
    );
    (config, response)
}

/// The nAsset token's name for collateral `symbol`.
pub open spec fn nasset_token_name(symbol: Seq<char>) -> Seq<char> {
    "Nexus b"@ + symbol + " token share representation"@
}

/// The nAsset token's symbol for collateral `symbol`.
pub open spec fn nasset_token_symbol(symbol: Seq<char>) -> Seq<char> {
    "n"@ + symbol
}

/// The steps of the set-up: the replies to the instantiations and to the
/// pair creation.
pub open spec fn is_init_step(step: SubmsgIds) -> bool {
    ||| step is InitNAssetConfigHolder
    ||| step is InitNAsset
    ||| step is InitNAssetPsiSwapPair
    ||| step is InitNAssetRewards
    ||| step is InitPsiDistributor
}

/// `m` instantiates a contract with `admin` and `code_id`, and the vault
/// hears back, under `reply`, when that succeeds.
pub open spec fn instantiation(m: SubMessage, reply: SubmsgIds) -> bool {
    &&& m.id == submsg_id_spec(reply)
    &&& m.reply_on == ReplyOn::Success
    &&& m.contract_addr@.len() == 0
    &&& m.funds is None
}

/// The vault's answer to step `step`, which named `address`: instantiate
/// the nAsset token once its config holder exists; create the nAsset/PSI
/// pair once the token exists; instantiate the token rewards contract once
/// the pair exists; instantiate the PSI distributor and tell the config
/// holder the rewards contract once that exists; and report the PSI
/// distributor at the end.
pub open spec fn init_step_answered(
    step: SubmsgIds,
    address: Seq<char>,
    child: ChildContractsInfo,
    config: Config,
    progress: InitProgress,
    resp: Response,
) -> bool {
    match step {
        SubmsgIds::InitNAssetConfigHolder => {
            &&& resp.messages@.len() == 1
            &&& instantiation(resp.messages@[0], SubmsgIds::InitNAsset)
            &&& resp.messages@[0].msg matches VaultMsg::InstantiateNAssetToken {
                admin,
                code_id,
                name,
                symbol,
                minter,
                config_holder,
            } && admin == config.governance_contract && code_id == child.nasset_token_code_id
                && name@ == nasset_token_name(child.collateral_token_symbol@) && symbol@
                == nasset_token_symbol(child.collateral_token_symbol@) && minter
                == progress.contract_address && config_holder@ == address
            &&& resp.attrs() == seq![
                ("action"@, "nasset_token_config_holder_initialized"@),
                ("nasset_token_config_holder_addr"@, address),
            ]
        },
        SubmsgIds::InitNAsset => {
            &&& resp.messages@.len() == 1
            &&& resp.messages@[0].id == submsg_id_spec(SubmsgIds::InitNAssetPsiSwapPair)
            &&& resp.messages@[0].reply_on == ReplyOn::Always
            &&& resp.messages@[0].contract_addr == progress.terraswap_factory
            &&& resp.messages@[0].funds is None
            &&& resp.messages@[0].msg matches VaultMsg::CreatePair { token_a, token_b } && token_a@
                == address && token_b == config.psi_token
            &&& resp.attrs() == seq![
                ("action"@, "nasset_token_initialized"@),
                ("nasset_token_addr"@, address),
            ]
        },
        SubmsgIds::InitNAssetPsiSwapPair => {
            &&& resp.messages@.len() == 1
            &&& instantiation(resp.messages@[0], SubmsgIds::InitNAssetRewards)
            &&& resp.messages@[0].msg == VaultMsg::InstantiateNAssetRewards {
                admin: config.governance_contract,
                code_id: child.nasset_token_rewards_code_id,
                psi_token: config.psi_token,
                nasset_token: config.nasset_token,
                governance: config.governance_contract,
            }
            &&& resp.attrs() == seq![
                ("action"@, "nasset_psi_swap_pair_initialized"@),
                ("nasset_psi_swap_contract_addr"@, address),
            ]
        },
        SubmsgIds::InitNAssetRewards => {
            &&& resp.messages@.len() == 2
            &&& instantiation(resp.messages@[0], SubmsgIds::InitPsiDistributor)
            &&& progress.nasset_psi_swap_contract matches Some(pair) && resp.messages@[0].msg matches VaultMsg::InstantiatePsiDistributor {
                admin,
                code_id,
                psi_token,
                nasset_token_rewards,
                governance,
                strategy,
                nasset_psi_swap,
                community_pool,
                manual_ltv,
                fee_rate,
                tax_rate,
            } && admin == config.governance_contract && code_id == child.psi_distributor_code_id
                && psi_token == config.psi_token && nasset_token_rewards@ == address && governance
                == config.governance_contract && strategy == config.basset_vault_strategy_contract
                && nasset_psi_swap == pair && community_pool == child.community_pool_contract_addr
                && manual_ltv == child.manual_ltv && fee_rate == child.fee_rate && tax_rate
                == child.tax_rate
            &&& resp.messages@[1].id == 0
            &&& resp.messages@[1].reply_on == ReplyOn::Never
            &&& resp.messages@[1].contract_addr == progress.nasset_token_config_holder
            &&& resp.messages@[1].funds is None
            &&& resp.messages@[1].msg matches VaultMsg::SetTokenRewardsContract { rewards }
                && rewards@ == address
            &&& resp.attrs() == seq![
                ("action"@, "nasset_token_rewards_initialized"@),
                ("nasset_token_rewards_addr"@, address),
            ]
        },
        _ => {
            &&& resp.messages@.len() == 0
            &&& resp.attrs() == seq![
                ("action"@, "psi_distributor_initialized"@),
                ("psi_distributor_addr"@, address),
            ]
        },
    }
}

fn nasset_name(symbol: &String) -> (r: String)
    ensures
        r@ == nasset_token_name(symbol@),
{
    let mut name = "Nexus b".to_owned();
    name.append(symbol.as_str());
    name.append(" token share representation");
    name
}

fn nasset_symbol(symbol: &String) -> (r: String)
    ensures
        r@ == nasset_token_symbol(symbol@),
{
    let mut s = "n".to_owned();
    s.append(symbol.as_str());
    s
}

/// The vault's answer to the set-up step `step`, which named `address`
/// (see `init_step_answered`). Refused when the rewards contract is reported
/// before the nAsset/PSI pair exists.
pub fn next_init_step(
    step: SubmsgIds,
    address: String,
    child: &ChildContractsInfo,
    config: &Config,
    progress: &InitProgress,
) -> (r: Result<Response, VaultError>)
    requires
        is_init_step(step),
    ensures
        r is Err <==> (step is InitNAssetRewards && progress.nasset_psi_swap_contract is None),
        r is Err ==> r == Err::<Response, VaultError>(VaultError::NAssetPsiPairMissing),
        r matches Ok(resp) ==> init_step_answered(step, address@, *child, *config, *progress, resp),
{
    let ghost named = address@;
    let mut response = Response::new();
    match step {
        SubmsgIds::InitNAssetConfigHolder => {
            response.messages.push(
                with_reply(
                    SubmsgIds::InitNAsset,
                    ReplyOn::Success,
                    String::new(),
                    VaultMsg::InstantiateNAssetToken {
                        admin: config.governance_contract.clone(),
                        code_id: child.nasset_token_code_id,
                        name: nasset_name(&child.collateral_token_symbol),
                        symbol: nasset_symbol(&child.collateral_token_symbol),
                        minter: progress.contract_address.clone(),
                        config_holder: address.clone(),
                    },
                    None,
                ),
            );
            response.attributes.push(attr_str("action", "nasset_token_config_holder_initialized"));
            response.attributes.push(attr("nasset_token_config_holder_addr", address));
            proof {
                assert(response.attrs() =~= seq![
                    ("action"@, "nasset_token_config_holder_initialized"@),
                    ("nasset_token_config_holder_addr"@, named),
                ]);
            }
        },
        SubmsgIds::InitNAsset => {
            response.messages.push(
                with_reply(
                    SubmsgIds::InitNAssetPsiSwapPair,
                    ReplyOn::Always,
                    progress.terraswap_factory.clone(),
                    VaultMsg::CreatePair { token_a: address.clone(), token_b: config.psi_token.clone() },
                    None,
                ),
            );
            response.attributes.push(attr_str("action", "nasset_token_initialized"));
            response.attributes.push(attr("nasset_token_addr", address));
            proof {
                assert(response.attrs() =~= seq![
                    ("action"@, "nasset_token_initialized"@),
                    ("nasset_token_addr"@, named),
                ]);
            }
        },
        SubmsgIds::InitNAssetPsiSwapPair => {
            response.messages.push(
                with_reply(
                    SubmsgIds::InitNAssetRewards,
                    ReplyOn::Success,
                    String::new(),
                    VaultMsg::InstantiateNAssetRewards {
                        admin: config.governance_contract.clone(),
                        code_id: child.nasset_token_rewards_code_id,
                        psi_token: config.psi_token.clone(),
                        nasset_token: config.nasset_token.clone(),
                        governance: config.governance_contract.clone(),
                    },
                    None,
                ),
            );
            response.attributes.push(attr_str("action", "nasset_psi_swap_pair_initialized"));
            response.attributes.push(attr("nasset_psi_swap_contract_addr", address));
            proof {
                assert(response.attrs() =~= seq![
                    ("action"@, "nasset_psi_swap_pair_initialized"@),
                    ("nasset_psi_swap_contract_addr"@, named),
                ]);
            }
        },
        SubmsgIds::InitNAssetRewards => {
            let pair = match &progress.nasset_psi_swap_contract {
                Some(pair) => pair.clone(),
                None => {
                    return Err(VaultError::NAssetPsiPairMissing);
                },
            };
            response.messages.push(
                with_reply(
                    SubmsgIds::InitPsiDistributor,
                    ReplyOn::Success,
                    String::new(),
                    VaultMsg::InstantiatePsiDistributor {
                        admin: config.governance_contract.clone(),
                        code_id: child.psi_distributor_code_id,
                        psi_token: config.psi_token.clone(),
                        nasset_token_rewards: address.clone(),
                        governance: config.governance_contract.clone(),
                        strategy: config.basset_vault_strategy_contract.clone(),
                        nasset_psi_swap: pair,
                        community_pool: child.community_pool_contract_addr.clone(),
                        manual_ltv: child.manual_ltv,
                        fee_rate: child.fee_rate,
                        tax_rate: child.tax_rate,
                    },
                    None,
                ),
            );
            response.messages.push(
                plain(
                    progress.nasset_token_config_holder.clone(),
                    VaultMsg::SetTokenRewardsContract { rewards: address.clone() },
                    None,
                ),
            );
            response.attributes.push(attr_str("action", "nasset_token_rewards_initialized"));
            response.attributes.push(attr("nasset_token_rewards_addr", address));
            proof {
                assert(response.attrs() =~= seq![
                    ("action"@, "nasset_token_rewards_initialized"@),
                    ("nasset_token_rewards_addr"@, named),
                ]);
            }
        },
        _ => {
            response.attributes.push(attr_str("action", "psi_distributor_initialized"));
            response.attributes.push(attr("psi_distributor_addr", address));
            proof {
                assert(response.attrs() =~= seq![
                    ("action"@, "psi_distributor_initialized"@),
                    ("psi_distributor_addr"@, named),
                ]);
            }
        },
    }
    proof {
        assert(init_step_answered(step, named, *child, *config, *progress, response));
    }
    Ok(response)
}

} // verus!
