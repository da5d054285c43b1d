//! The messages and attributes a vault answer consists of, described by
//! plain values; the contract entry points turn them into CosmWasm
//! messages.
use vstd::prelude::*;
use crate::math::{Decimal256, Uint256};

verus! {

/// When the vault wants to hear back from a sub-message.
#[derive(Clone, Copy, Debug, PartialEq, Eq, Structural)]
pub enum ReplyOn {
    Never,
    Success,
    Always,
}

/// An amount of a native coin.
#[derive(Clone, Debug, PartialEq, Eq)]
pub struct Coin {
    pub denom: String,
    pub amount: Uint256,
}

/// The calls the vault makes to other contracts (and to itself).
#[derive(Clone, Debug, PartialEq, Eq)]
pub enum VaultMsg {
    /// Anchor market: repay the stables sent along.
    AnchorRepayStable,
    /// Anchor market: deposit the stables sent along.
    AnchorDepositStable,
    /// Anchor market: borrow stables.
    AnchorBorrowStable { borrow_amount: Uint256 },
    /// Anchor market: claim ANC rewards.
    AnchorClaimRewards,
    /// aTerra token: send `amount` to the market to redeem stables.
    RedeemStable { market: String, amount: Uint256 },
    /// bAsset token: send `amount` to the custody as collateral.
    DepositCollateral { custody: String, amount: Uint256 },
    /// Anchor overseer: lock `amount` of `token` as collateral.
    LockCollateral { token: String, amount: Uint256 },
    /// Anchor overseer: unlock `amount` of `token`.
    UnlockCollateral { token: String, amount: Uint256 },
    /// Anchor custody: withdraw `amount` of unlocked collateral.
    WithdrawCollateral { amount: Uint256 },
    /// cw20 token: mint `amount` to `recipient`.
    Mint { recipient: String, amount: Uint256 },
    /// cw20 token: transfer `amount` to `recipient`.
    Transfer { recipient: String, amount: Uint256 },
    /// cw20 token: burn `amount` of the vault's own tokens.
    Burn { amount: Uint256 },
    /// Swap pair: swap the native coins sent along, the proceeds going to `to`.
    SwapStable { offer_denom: String, offer_amount: Uint256, to: String },
    /// ANC token: send `amount` to the swap pair `pair` to swap.
    SwapAnc { pair: String, amount: Uint256 },
    /// PSI distributor: distribute the rewards it holds.
    DistributePsiRewards,
    /// The vault itself: rebalance.
    Rebalance,
    /// The vault itself: swap its ANC.
    SwapAncYourself,
    /// The vault itself: distribute the profit of the swap.
    DistributeRewardsYourself,
    /// bAsset reward contract: claim holding rewards.
    ClaimHoldingRewards,
    /// Instantiate, with `admin` and `code_id`, the nAsset token config
    /// holder governed by `governance`.
    InstantiateConfigHolder { admin: String, code_id: u64, governance: String },
    /// Instantiate, with `admin` and `code_id`, the nAsset cw20 token: six
    /// decimals, no initial balances, minted by `minter` alone.
    InstantiateNAssetToken {
        admin: String,
        code_id: u64,
        name: String,
        symbol: String,
        minter: String,
        config_holder: String,
    },
    /// Terraswap factory: create the pair of two cw20 tokens.
    CreatePair { token_a: String, token_b: String },
    /// Instantiate, with `admin` and `code_id`, the nAsset token rewards contract.
    InstantiateNAssetRewards {
        admin: String,
        code_id: u64,
        psi_token: String,
        nasset_token: String,
        governance: String,
    },
    /// Instantiate, with `admin` and `code_id`, the PSI distributor.
    InstantiatePsiDistributor {
        admin: String,
        code_id: u64,
        psi_token: String,
        nasset_token_rewards: String,
        governance: String,
        strategy: String,
        nasset_psi_swap: String,
        community_pool: String,
        manual_ltv: Decimal256,
        fee_rate: Decimal256,
        tax_rate: Decimal256,
    },
    /// nAsset token config holder: the token rewards contract is `rewards`.
    SetTokenRewardsContract { rewards: String },
}

/// A call to `contract_addr` (empty for an instantiation) with at most one
/// native coin attached.
#[derive(Clone, Debug, PartialEq, Eq)]
pub struct SubMessage {
    pub id: u64,
    pub reply_on: ReplyOn,
    pub contract_addr: String,
    pub msg: VaultMsg,
    pub funds: Option<Coin>,
}

/// A key-value attribute of the answer.
#[derive(Clone, Debug, PartialEq, Eq)]
pub struct Attribute {
    pub key: String,
    pub value: String,
}

/// The messages to send and the attributes to report.
#[derive(Clone, Debug, PartialEq, Eq)]
pub struct Response {
    pub messages: Vec<SubMessage>,
    pub attributes: Vec<Attribute>,
}

/// An attribute as a pair of character sequences.
pub open spec fn attr_view(a: Attribute) -> (Seq<char>, Seq<char>) {
    (a.key@, a.value@)
}

impl Response {
    /// The attributes as pairs of character sequences.
    pub open spec fn attrs(&self) -> Seq<(Seq<char>, Seq<char>)> {
        self.attributes@.map_values(|a: Attribute| attr_view(a))
    }

    pub fn new() -> (r: Response)
        ensures
            r.messages@ == Seq::<SubMessage>::empty(),
            r.attributes@ == Seq::<Attribute>::empty(),
    {
        Response { messages: Vec::new(), attributes: Vec::new() }
    }
}

/// An attribute with a literal key and a given value.
pub fn attr(key: &str, value: String) -> (r: Attribute)
    ensures
        r.key@ == key@,
        r.value@ == value@,
{
    Attribute { key: key.to_owned(), value }
}

/// An attribute with a literal key and a literal value.
pub fn attr_str(key: &str, value: &str) -> (r: Attribute)
    ensures
        r.key@ == key@,
        r.value@ == value@,
{
    Attribute { key: key.to_owned(), value: value.to_owned() }
}

} // verus!
