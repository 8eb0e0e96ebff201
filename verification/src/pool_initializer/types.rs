//! The pool initializer's settings, pending operation, messages and errors.
use vstd::prelude::*;
use vstd::string::*;
use crate::asset::{Asset, AssetInfo, Coin, PairType};
use crate::error::{Checked, StdError};

verus! {

/// The reply identifier of the pair creation.
pub const CREATE_PAIR_REPLY_ID: u64 = 1;
/// The reply identifier of the liquidity provision.
pub const PROVIDE_LIQUIDITY_REPLY_ID: u64 = 2;

/// The pool initializer's settings.
#[derive(PartialEq, Eq, Debug)]
pub struct Config {
    /// The address that may change the settings and recover stuck operations.
    pub owner: String,
    /// The factory that creates the pairs.
    pub factory_addr: String,
    /// The fee that the factory asks for creating a pair.
    pub pair_creation_fee: u128,
    /// The denomination of the pair creation fee.
    pub fee_denom: String,
}

/// How to provide the first liquidity of the new pair.
#[derive(PartialEq, Eq, Debug)]
pub struct ProvideLiquidityParams {
    pub assets: Vec<Asset>,
    /// The slippage tolerance, as the atomics of an 18-decimal fraction.
    pub slippage_tolerance: Option<u128>,
    /// Who receives the LP tokens; the caller when none is given.
    pub receiver: Option<String>,
    pub min_lp_to_receive: Option<u128>,
}

/// A pair creation waiting for the factory's reply.
#[derive(PartialEq, Eq, Debug)]
pub struct PendingLiquidity {
    /// Who asked for the pair.
    pub sender: String,
    pub pair_type: PairType,
    pub asset_infos: Vec<AssetInfo>,
    pub init_params: Option<Vec<u8>>,
    pub liquidity: ProvideLiquidityParams,
    /// The native coins kept for the liquidity.
    pub funds: Vec<Coin>,
    /// The CW20 token contracts and amounts to collect from the sender.
    pub cw20_messages: Vec<(String, u128)>,
}

/// The settings to start with.
#[derive(PartialEq, Eq, Debug)]
pub struct InstantiateMsg {
    pub factory_addr: String,
    pub pair_creation_fee: u128,
    pub fee_denom: String,
}

/// The calls the pool initializer answers, with each given address as the
/// chain's address check answered for it.
#[derive(PartialEq, Eq, Debug)]
pub enum ExecuteMsg {
    /// Creates a pair and provides its first liquidity.
    CreatePairAndProvideLiquidity {
        pair_type: PairType,
        asset_infos: Vec<AssetInfo>,
        init_params: Option<Vec<u8>>,
        liquidity: ProvideLiquidityParams,
    },
    /// Changes the settings (owner only).
    UpdateConfig {
        factory_addr: Option<Checked>,
        pair_creation_fee: Option<u128>,
        fee_denom: Option<String>,
    },
    /// Gives the pending operation's coins back to its sender (owner only).
    EmergencyRecovery {},
}

/// The queries the pool initializer answers.
#[derive(PartialEq, Eq, Debug)]
pub enum QueryMsg {
    Config {},
}

/// The answer to the settings query.
#[derive(PartialEq, Eq, Debug)]
pub struct ConfigResponse {
    pub owner: String,
    pub factory_addr: String,
    pub pair_creation_fee: u128,
    pub fee_denom: String,
}

/// A message that the pool initializer sends.
#[derive(PartialEq, Eq, Debug)]
pub enum PoolMsg {
    /// Asks the factory to create a pair, paying `funds`; its reply comes back
    /// under `CREATE_PAIR_REPLY_ID`.
    CreatePair {
        factory_addr: String,
        pair_type: PairType,
        asset_infos: Vec<AssetInfo>,
        init_params: Option<Vec<u8>>,
        funds: Vec<Coin>,
    },
    /// Moves `amount` of a CW20 token from `owner` to `recipient`.
    Cw20TransferFrom { token: String, owner: String, recipient: String, amount: u128 },
    /// Lets `spender` spend `amount` more of a CW20 token.
    Cw20IncreaseAllowance { token: String, spender: String, amount: u128 },
    /// Provides liquidity to the pair, paying `funds`; its reply comes back
    /// under `PROVIDE_LIQUIDITY_REPLY_ID`.
    ProvideLiquidity {
        pair_addr: String,
        assets: Vec<Asset>,
        slippage_tolerance: Option<u128>,
        receiver: Option<String>,
        min_lp_to_receive: Option<u128>,
        funds: Vec<Coin>,
    },
    /// A bank transfer.
    BankSend { to_address: String, coins: Vec<Coin> },
}

/// The errors of the pool initializer.
#[derive(PartialEq, Eq, Debug)]
pub enum ContractError {
    Std(StdError),
    InvalidReplyId {},
    FailedToQueryFactory {},
    NoPendingLiquidity {},
    InvalidAssetInfo {},
    InvalidInitialLiquidity {},
    Unauthorized {},
}

/// The text that an error displays.
pub open spec fn error_text(e: ContractError) -> Seq<char> {
    match e {
        ContractError::Std(s) => s.text@,
        ContractError::InvalidReplyId {} => "Invalid reply ID"@,
        ContractError::FailedToQueryFactory {} => "Failed to query factory for pair info"@,
        ContractError::NoPendingLiquidity {} => "No pending liquidity found"@,
        ContractError::InvalidAssetInfo {} => "Invalid asset info"@,
        ContractError::InvalidInitialLiquidity {} => "Invalid initial liquidity"@,
        ContractError::Unauthorized {} => "Unauthorized"@,
    }
}

impl ContractError {
    /// The text that the error displays.
    pub fn to_string(&self) -> (s: String)
        ensures
            s@ == error_text(*self),
    {
        match self {
            ContractError::Std(e) => e.to_string(),
            ContractError::InvalidReplyId {} => String::from_str("Invalid reply ID"),
            ContractError::FailedToQueryFactory {} => String::from_str("Failed to query factory for pair info"),
            ContractError::NoPendingLiquidity {} => String::from_str("No pending liquidity found"),
            ContractError::InvalidAssetInfo {} => String::from_str("Invalid asset info"),
            ContractError::InvalidInitialLiquidity {} => String::from_str("Invalid initial liquidity"),
            ContractError::Unauthorized {} => String::from_str("Unauthorized"),
        }
    }
}

/// The pool initializer's stored data.
#[derive(Debug)]
pub struct PoolInitializer {
    pub config: Config,
    pub pending: Option<PendingLiquidity>,
}

} // verus!
