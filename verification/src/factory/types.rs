//! The factory's stored data, messages and errors.
use vstd::prelude::*;
use vstd::string::*;
use crate::asset::{AssetInfo, PairType, Coin, utf8, pair_type_text};
use crate::error::{Checked, StdError};
use crate::ordered::ByteMap;
use crate::factory::order::{keys_view, lists_once};
use crate::ownership::OwnershipProposal;

verus! {

/// General factory settings.
#[derive(PartialEq, Eq, Debug)]
pub struct Config {
    /// The address allowed to change settings and to unpause pairs.
    pub owner: String,
    /// The CW20 token contract code identifier.
    pub token_code_id: u64,
    /// The address that governance fees are sent to.
    pub fee_address: Option<String>,
    /// The generator contract address.
    pub generator_address: Option<String>,
    /// The CW1 whitelist contract code identifier.
    pub whitelist_code_id: u64,
    /// The coin registry contract address.
    pub coin_registry_address: String,
}

/// The settings of one pair type.
#[derive(PartialEq, Eq, Debug)]
pub struct PairConfig {
    pub code_id: u64,
    pub pair_type: PairType,
    pub total_fee_bps: u16,
    pub maker_fee_bps: u16,
    pub is_disabled: bool,
    pub is_generator_disabled: bool,
    pub permissioned: bool,
    pub pool_creation_fee: u128,
}

/// The largest total fee, in basis points.
pub const MAX_TOTAL_FEE_BPS: u16 = 10_000;
/// The largest maker fee, in basis points.
pub const MAX_MAKER_FEE_BPS: u16 = 10_000;

impl PairConfig {
    /// Both fees are at most 10,000 basis points.
    pub open spec fn fees_valid(self) -> bool {
        self.total_fee_bps <= MAX_TOTAL_FEE_BPS && self.maker_fee_bps <= MAX_MAKER_FEE_BPS
    }

    /// Whether both fees are at most 10,000 basis points.
    pub fn valid_fee_bps(&self) -> (r: bool)
        ensures
            r == self.fees_valid(),
    {
        self.total_fee_bps <= MAX_TOTAL_FEE_BPS && self.maker_fee_bps <= MAX_MAKER_FEE_BPS
    }

    /// A copy of these settings.
    pub fn copy(&self) -> (r: PairConfig)
        ensures
            r == *self,
    {
        PairConfig {
            code_id: self.code_id,
            pair_type: self.pair_type.copy(),
            total_fee_bps: self.total_fee_bps,
            maker_fee_bps: self.maker_fee_bps,
            is_disabled: self.is_disabled,
            is_generator_disabled: self.is_generator_disabled,
            permissioned: self.permissioned,
            pool_creation_fee: self.pool_creation_fee,
        }
    }
}

/// The key under which a pair type's settings are stored.
pub open spec fn config_key(p: PairType) -> Seq<u8> {
    utf8(pair_type_text(p))
}

/// The settings of the contract that tracks token factory balances.
#[derive(PartialEq, Eq, Debug)]
pub struct TrackerConfig {
    pub code_id: u64,
    pub token_factory_addr: String,
}

impl TrackerConfig {
    /// A copy of these settings.
    pub fn copy(&self) -> (r: TrackerConfig)
        ensures
            r == *self,
    {
        TrackerConfig { code_id: self.code_id, token_factory_addr: self.token_factory_addr.clone() }
    }
}

/// The key of the pair being created, kept until its instantiation reply arrives.
#[derive(PartialEq, Eq, Debug)]
pub struct TmpPairInfo {
    pub pair_key: Vec<u8>,
}

/// Changes to the general settings; each field left `None` stays as it is.
/// Addresses come as the chain's address check answered for them.
#[derive(PartialEq, Eq, Debug)]
pub struct UpdateConfig {
    pub token_code_id: Option<u64>,
    pub fee_address: Option<Checked>,
    pub generator_address: Option<Checked>,
    pub whitelist_code_id: Option<u64>,
    pub coin_registry_address: Option<Checked>,
}

/// The tracker settings given at instantiation.
#[derive(PartialEq, Eq, Debug)]
pub struct TrackerConfigInput {
    pub code_id: u64,
    pub token_factory_addr: Checked,
}

/// The parameters of a new factory.
#[derive(PartialEq, Eq, Debug)]
pub struct InstantiateMsg {
    pub pair_configs: Vec<PairConfig>,
    pub token_code_id: u64,
    pub fee_address: Option<Checked>,
    pub generator_address: Option<Checked>,
    pub owner: Checked,
    pub whitelist_code_id: u64,
    pub coin_registry_address: Checked,
    pub tracker_config: Option<TrackerConfigInput>,
}

/// A message that the factory sends.
#[derive(PartialEq, Eq, Debug)]
pub enum FactoryMsg {
    /// Instantiates a pair contract; its reply carries the new address.
    InstantiatePair {
        admin: String,
        code_id: u64,
        pair_type: PairType,
        asset_infos: Vec<AssetInfo>,
        token_code_id: u64,
        factory_addr: String,
        init_params: Option<Vec<u8>>,
        funds: Vec<Coin>,
        label: String,
    },
    /// Sets to zero, in the generator, the allocation of the LP token of `pair`.
    DeactivatePool { generator: String, pair: String },
    /// Pauses the pair contract.
    Pause { contract_addr: String },
    /// Unpauses the pair contract.
    Unpause { contract_addr: String },
}

/// The calls the factory answers, with each given address as the chain's
/// address check answered for it and, beside each asset list, what the
/// chain's checks answered for each of its assets.
pub enum ExecuteMsg {
    /// Changes the general settings; each field left `None` stays as it is.
    UpdateConfig {
        token_code_id: Option<u64>,
        fee_address: Option<Checked>,
        generator_address: Option<Checked>,
        whitelist_code_id: Option<u64>,
        coin_registry_address: Option<Checked>,
    },
    /// Sets the settings of a pair type.
    UpdatePairConfig { config: PairConfig },
    /// Starts creating a pair.
    CreatePair {
        pair_type: PairType,
        asset_infos: Vec<AssetInfo>,
        token_checks: Vec<Result<(), StdError>>,
        init_params: Option<Vec<u8>>,
    },
    /// Removes a pair.
    Deregister { asset_infos: Vec<AssetInfo>, token_checks: Vec<Result<(), StdError>>, pair_type: PairType },
    /// Proposes a new owner.
    ProposeNewOwner { owner: Checked, expires_in: u64 },
    /// Withdraws the ownership proposal.
    DropOwnershipProposal {},
    /// Claims ownership.
    ClaimOwnership {},
    /// Sets the tracker settings.
    UpdateTrackerConfig { tracker_code_id: u64, token_factory_addr: Option<String> },
    /// Pauses one pair.
    PausePair { asset_infos: Vec<AssetInfo>, token_checks: Vec<Result<(), StdError>>, pair_type: PairType },
    /// Unpauses one pair.
    UnpausePair { asset_infos: Vec<AssetInfo>, token_checks: Vec<Result<(), StdError>>, pair_type: PairType },
    /// Pauses the next batch of unpaused pairs.
    PausePairsBatch { batch_size: Option<u32> },
    /// Unpauses the next batch of paused pairs.
    UnpausePairsBatch { batch_size: Option<u32> },
    /// Gives pause authority to addresses.
    AddPauseAuthorities { authorities: Vec<(String, Checked)> },
    /// Takes pause authority away from addresses.
    RemovePauseAuthorities { authorities: Vec<(String, Checked)> },
}

/// The errors of the factory.
#[derive(PartialEq, Eq, Debug)]
pub enum ContractError {
    Std(StdError),
    Unauthorized {},
    PairWasCreated {},
    PairWasRegistered {},
    PairConfigDuplicate {},
    PairConfigInvalidFeeBps {},
    PairConfigNotFound {},
    PairConfigDisabled {},
    DoublingAssets {},
    MigrationError {},
    FailedToParseReply {},
    InvalidPoolCreationFee { required: u128 },
    MissingPoolCreationFee {},
    PairAlreadyPaused {},
    PairNotPaused {},
    NoPauseAuthority {},
    InvalidPauseAuthority { address: String },
    NoUnpauseAuthority {},
}

/// The text that an error displays.
pub open spec fn error_text(e: ContractError) -> Seq<char> {
    match e {
        ContractError::Std(s) => s.text@,
        ContractError::Unauthorized {} => "Unauthorized"@,
        ContractError::PairWasCreated {} => "Pair was already created"@,
        ContractError::PairWasRegistered {} => "Pair was already registered"@,
        ContractError::PairConfigDuplicate {} => "Duplicate of pair configs"@,
        ContractError::PairConfigInvalidFeeBps {} => "Fee bps in pair config must be smaller than or equal to 10,000"@,
        ContractError::PairConfigNotFound {} => "Pair config not found"@,
        ContractError::PairConfigDisabled {} => "Pair config disabled"@,
        ContractError::DoublingAssets {} => "Doubling assets in asset infos"@,
        ContractError::MigrationError {} => "Contract can't be migrated!"@,
        ContractError::FailedToParseReply {} => "Failed to parse or process reply message"@,
        ContractError::InvalidPoolCreationFee { required } => "Pool creation fee amount is insufficient. Required: "@
            + crate::text::dec(required as nat),
        ContractError::MissingPoolCreationFee {} => "Pool creation fee is missing"@,
        ContractError::PairAlreadyPaused {} => "Pair is already paused"@,
        ContractError::PairNotPaused {} => "Pair is not paused"@,
        ContractError::NoPauseAuthority {} => "No pause authority"@,
        ContractError::InvalidPauseAuthority { address } => "Invalid pause authority address: "@ + address@,
        ContractError::NoUnpauseAuthority {} => "No unpause authority - only factory admin can unpause pairs"@,
    }
}

impl ContractError {
    /// The text that the error displays.
    pub fn to_string(&self) -> (s: String)
        ensures
            s@ == error_text(*self),
    {
        match self {
            ContractError::Std(e) => e.to_string(),
            ContractError::Unauthorized {} => String::from_str("Unauthorized"),
            ContractError::PairWasCreated {} => String::from_str("Pair was already created"),
            ContractError::PairWasRegistered {} => String::from_str("Pair was already registered"),
            ContractError::PairConfigDuplicate {} => String::from_str("Duplicate of pair configs"),
            ContractError::PairConfigInvalidFeeBps {} => String::from_str(
                "Fee bps in pair config must be smaller than or equal to 10,000",
            ),
            ContractError::PairConfigNotFound {} => String::from_str("Pair config not found"),
            ContractError::PairConfigDisabled {} => String::from_str("Pair config disabled"),
            ContractError::DoublingAssets {} => String::from_str("Doubling assets in asset infos"),
            ContractError::MigrationError {} => String::from_str("Contract can't be migrated!"),
            ContractError::FailedToParseReply {} => String::from_str(
                "Failed to parse or process reply message",
            ),
            ContractError::InvalidPoolCreationFee { required } => {
                let mut s = String::from_str("Pool creation fee amount is insufficient. Required: ");
                s.append(crate::text::decimal(*required).as_str());
                s
            },
            ContractError::MissingPoolCreationFee {} => String::from_str("Pool creation fee is missing"),
            ContractError::PairAlreadyPaused {} => String::from_str("Pair is already paused"),
            ContractError::PairNotPaused {} => String::from_str("Pair is not paused"),
            ContractError::NoPauseAuthority {} => String::from_str("No pause authority"),
            ContractError::InvalidPauseAuthority { address } => {
                let mut s = String::from_str("Invalid pause authority address: ");
                s.append(address.as_str());
                s
            },
            ContractError::NoUnpauseAuthority {} => String::from_str(
                "No unpause authority - only factory admin can unpause pairs",
            ),
        }
    }
}

/// The factory's stored data.
#[derive(Debug)]
pub struct Factory {
    pub config: Config,
    /// Pair type settings, keyed by the pair type's text.
    pub pair_configs: ByteMap<PairConfig>,
    /// Pair contract addresses, keyed by pair key.
    pub pairs: ByteMap<String>,
    /// The keys of the stored pairs, in the order the pairs were created.
    pub pair_order: Vec<Vec<u8>>,
    /// The keys of paused pairs.
    pub paused: ByteMap<()>,
    /// The addresses allowed to pause pairs, keyed by their bytes.
    pub pause_authorities: ByteMap<String>,
    pub tracker_config: Option<TrackerConfig>,
    pub tmp_pair_info: Option<TmpPairInfo>,
    pub ownership_proposal: Option<OwnershipProposal>,
}

/// The factory's stored data as mathematical maps and sets.
#[verifier::ext_equal]
pub struct FactoryState {
    pub config: Config,
    pub pair_configs: Map<Seq<u8>, PairConfig>,
    pub pairs: Map<Seq<u8>, String>,
    /// The keys of the stored pairs, oldest first.
    pub order: Seq<Seq<u8>>,
    pub paused: Set<Seq<u8>>,
    pub authorities: Map<Seq<u8>, String>,
    pub tracker_config: Option<TrackerConfig>,
    pub tmp_key: Option<Seq<u8>>,
    pub proposal: Option<OwnershipProposal>,
}

impl Factory {
    /// The stored maps keep their keys in ascending order, the creation order
    /// lists each stored pair once, each pair type's settings are stored under
    /// that pair type's text, and each pause authority under its own bytes.
    pub open spec fn wf(&self) -> bool {
        &&& self.pair_configs.wf()
        &&& self.pairs.wf()
        &&& lists_once(keys_view(self.pair_order@), self.pairs.map().dom())
        &&& self.paused.wf()
        &&& self.pause_authorities.wf()
        &&& forall|i: int|
            0 <= i < self.pair_configs.size() ==> #[trigger] self.pair_configs.key_at(i) == config_key(
                self.pair_configs.val_at(i).pair_type,
            )
        &&& forall|i: int|
            0 <= i < self.pause_authorities.size() ==> #[trigger] self.pause_authorities.key_at(i)
                == utf8(self.pause_authorities.val_at(i)@)
    }

    /// The stored data as maps and sets.
    pub open spec fn state(&self) -> FactoryState {
        FactoryState {
            config: self.config,
            pair_configs: self.pair_configs.map(),
            pairs: self.pairs.map(),
            order: keys_view(self.pair_order@),
            paused: self.paused.map().dom(),
            authorities: self.pause_authorities.map(),
            tracker_config: self.tracker_config,
            tmp_key: match self.tmp_pair_info {
                Some(t) => Some(t.pair_key@),
                None => None,
            },
            proposal: self.ownership_proposal,
        }
    }
}

} // verus!
