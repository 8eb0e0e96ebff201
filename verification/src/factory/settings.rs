//! Instantiation, settings, and the queries of settings.
use vstd::prelude::*;
use vstd::string::*;
use crate::asset::{PairType, string_bytes};
use crate::error::{Checked, StdError, generic_text, not_found_text};
use crate::factory::types::{Config, ContractError, Factory, FactoryMsg, FactoryState, InstantiateMsg,
    PairConfig, TrackerConfig, UpdateConfig, config_key};
use crate::factory::checks::{has_duplicate_type, configs_map, has_duplicate_pair_type, has_invalid_fee,
    build_configs, insert_config};
use crate::ordered::ByteMap;
use crate::factory::order::keys_view;
use crate::response::Response;
use crate::text::{dec, decimal};

verus! {

/// The contract name recorded at instantiation.
pub open spec fn contract_name() -> Seq<char> {
    "oroswap-factory"@
}

/// The address in a validated optional address, when there is one and it passed.
pub open spec fn valid_opt(o: Option<Checked>) -> Option<String> {
    match o {
        Some(Ok(a)) => Some(a),
        _ => None,
    }
}

/// The error of a validated optional address, when its check failed.
pub open spec fn opt_err(o: Option<Checked>) -> Option<StdError> {
    match o {
        Some(Err(e)) => Some(e),
        _ => None,
    }
}

/// The error that instantiation gives, if any, in the order the checks run.
pub open spec fn instantiate_error(msg: InstantiateMsg) -> Option<ContractError> {
    if msg.owner is Err {
        Some(ContractError::Std(msg.owner->Err_0))
    } else if msg.coin_registry_address is Err {
        Some(ContractError::Std(msg.coin_registry_address->Err_0))
    } else if opt_err(msg.generator_address) is Some {
        Some(ContractError::Std(opt_err(msg.generator_address)->Some_0))
    } else if opt_err(msg.fee_address) is Some {
        Some(ContractError::Std(opt_err(msg.fee_address)->Some_0))
    } else if has_duplicate_type(msg.pair_configs@) {
        Some(ContractError::PairConfigDuplicate {})
    } else if exists|i: int| 0 <= i < msg.pair_configs@.len() && !(#[trigger] msg.pair_configs@[i]).fees_valid() {
        Some(ContractError::PairConfigInvalidFeeBps {})
    } else if msg.tracker_config is Some && msg.tracker_config->Some_0.token_factory_addr is Err {
        Some(ContractError::Std(msg.tracker_config->Some_0.token_factory_addr->Err_0))
    } else {
        None
    }
}

/// The data of a newly instantiated factory.
pub open spec fn instantiated_state(msg: InstantiateMsg) -> FactoryState {
    FactoryState {
        config: Config {
            owner: msg.owner->Ok_0,
            token_code_id: msg.token_code_id,
            fee_address: valid_opt(msg.fee_address),
            generator_address: valid_opt(msg.generator_address),
            whitelist_code_id: msg.whitelist_code_id,
            coin_registry_address: msg.coin_registry_address->Ok_0,
        },
        pair_configs: configs_map(msg.pair_configs@),
        pairs: Map::empty(),
        order: Seq::empty(),
        paused: Set::empty(),
        authorities: Map::empty(),
        tracker_config: match msg.tracker_config {
            Some(t) => Some(TrackerConfig { code_id: t.code_id, token_factory_addr: t.token_factory_addr->Ok_0 }),
            None => None,
        },
        tmp_key: None,
        proposal: None,
    }
}

/// A validated optional address as an optional address, or its error.
fn take_opt(o: Option<Checked>) -> (r: Result<Option<String>, StdError>)
    ensures
        opt_err(o) is Some ==> r == Err::<Option<String>, StdError>(opt_err(o)->Some_0),
        opt_err(o) is None ==> r == Ok::<Option<String>, StdError>(valid_opt(o)),
{
    match o {
        None => Ok(None),
        Some(Ok(a)) => Ok(Some(a)),
        Some(Err(e)) => Err(e),
    }
}

/// What an update of the general settings does: the factory goes from `old` to `new` and answers `r`.
pub open spec fn update_config_outcome(
    old: Factory,
    new: Factory,
    sender: String,
    param: UpdateConfig,
    r: Result<Response<FactoryMsg>, ContractError>,
) -> bool {
    &&& (match update_config_error(old.config.owner@, sender@, param) {
        Some(e) => r == Err::<Response<FactoryMsg>, ContractError>(e) && new == old,
        None => r matches Ok(resp) && new.state() =~= (FactoryState {
            config: updated_config(old.config, param),
            ..old.state()
        }) && resp.messages@.len() == 0 && resp.attrs() =~= seq![("action"@, "update_config"@)],
    })
}

/// What an update of a pair type's settings does: the factory goes from `old` to `new` and answers `r`.
pub open spec fn update_pair_config_outcome(
    old: Factory,
    new: Factory,
    sender: String,
    pair_config: PairConfig,
    r: Result<Response<FactoryMsg>, ContractError>,
) -> bool {
    &&& (sender@ != old.config.owner@ ==> r == Err::<Response<FactoryMsg>, ContractError>(ContractError::Unauthorized {})
        && new == old)
    &&& (sender@ == old.config.owner@ && !pair_config.fees_valid() ==> r == Err::<Response<FactoryMsg>, ContractError>(
        ContractError::PairConfigInvalidFeeBps {},
    ) && new == old)
    &&& (sender@ == old.config.owner@ && pair_config.fees_valid() ==> (r matches Ok(resp)
        && new.state() =~= (FactoryState {
            pair_configs: old.state().pair_configs.insert(config_key(pair_config.pair_type), pair_config),
            ..old.state()
        }) && resp.messages@.len() == 0 && resp.attrs() =~= seq![("action"@, "update_pair_config"@)]))
}

/// What an update of the tracker settings does: the factory goes from `old` to `new` and answers `r`.
pub open spec fn tracker_config_outcome(
    old: Factory,
    new: Factory,
    sender: String,
    tracker_code_id: u64,
    token_factory_addr: Option<String>,
    r: Result<Response<FactoryMsg>, ContractError>,
) -> bool {
    &&& (sender@ != old.config.owner@ ==> r == Err::<Response<FactoryMsg>, ContractError>(ContractError::Unauthorized {})
        && new == old)
    &&& (sender@ == old.config.owner@ && old.tracker_config is None && token_factory_addr is None
        ==> (r matches Err(ContractError::Std(e)) && e.text@ == generic_text("token_factory_addr is required"@)
        && new == old))
    &&& (sender@ == old.config.owner@ && (old.tracker_config is Some || token_factory_addr is Some)
        ==> (r matches Ok(resp) && new.state() =~= (FactoryState {
            tracker_config: Some(match old.tracker_config {
                Some(t) => TrackerConfig { code_id: tracker_code_id, token_factory_addr: t.token_factory_addr },
                None => TrackerConfig { code_id: tracker_code_id, token_factory_addr: token_factory_addr->Some_0 },
            }),
            ..old.state()
        }) && resp.messages@.len() == 0
        && resp.attrs() =~= seq![("action"@, "update_tracker_config"@), ("code_id"@, dec(tracker_code_id as nat))]))
}

impl Factory {
    /// Creates a factory: validates the addresses and the pair type settings
    /// (no two for the same pair type, fees at most 10,000 basis points) and
    /// stores them.
    pub fn instantiate(msg: InstantiateMsg) -> (r: Result<(Factory, Response<FactoryMsg>), ContractError>)
        ensures
            match instantiate_error(msg) {
                Some(e) => r == Err::<(Factory, Response<FactoryMsg>), ContractError>(e),
                None => r matches Ok((f, resp)) && f.wf() && f.state() == instantiated_state(msg)
                    && resp.messages@.len() == 0
                    && resp.attrs() == seq![("action"@, "instantiate"@), ("contract"@, contract_name())],
            },
    {
        let ghost m = msg;
        let InstantiateMsg {
            pair_configs,
            token_code_id,
            fee_address,
            generator_address,
            owner,
            whitelist_code_id,
            coin_registry_address,
            tracker_config,
        } = msg;
        let owner = match owner {
            Ok(a) => a,
            Err(e) => return Err(ContractError::Std(e)),
        };
        let coin_registry_address = match coin_registry_address {
            Ok(a) => a,
            Err(e) => return Err(ContractError::Std(e)),
        };
        let generator_address = match take_opt(generator_address) {
            Ok(a) => a,
            Err(e) => return Err(ContractError::Std(e)),
        };
        let fee_address = match take_opt(fee_address) {
            Ok(a) => a,
            Err(e) => return Err(ContractError::Std(e)),
        };
        if has_duplicate_pair_type(&pair_configs) {
            return Err(ContractError::PairConfigDuplicate {});
        }
        if has_invalid_fee(&pair_configs) {
            return Err(ContractError::PairConfigInvalidFeeBps {});
        }
        let configs = build_configs(&pair_configs);
        let tracker = match tracker_config {
            None => None,
            Some(t) => match t.token_factory_addr {
                Ok(a) => Some(TrackerConfig { code_id: t.code_id, token_factory_addr: a }),
                Err(e) => return Err(ContractError::Std(e)),
            },
        };
        let f = Factory {
            config: Config {
                owner,
                token_code_id,
                fee_address,
                generator_address,
                whitelist_code_id,
                coin_registry_address,
            },
            pair_configs: configs,
            pairs: ByteMap::new(),
            pair_order: Vec::new(),
            paused: ByteMap::new(),
            pause_authorities: ByteMap::new(),
            tracker_config: tracker,
            tmp_pair_info: None,
            ownership_proposal: None,
        };
        let mut resp = Response::new();
        resp.add_attribute("action", String::from_str("instantiate"));
        resp.add_attribute("contract", String::from_str("oroswap-factory"));
        assert(f.paused.map().dom() =~= Set::<Seq<u8>>::empty());
        assert(f.pairs.map().dom() =~= Set::<Seq<u8>>::empty());
        assert(keys_view(f.pair_order@) =~= Seq::<Seq<u8>>::empty());
        assert(f.state() == instantiated_state(m));
        Ok((f, resp))
    }
}

/// The error that updating the general settings gives, if any.
pub open spec fn update_config_error(owner: Seq<char>, sender: Seq<char>, p: UpdateConfig) -> Option<ContractError> {
    if sender != owner {
        Some(ContractError::Unauthorized {})
    } else if opt_err(p.fee_address) is Some {
        Some(ContractError::Std(opt_err(p.fee_address)->Some_0))
    } else if opt_err(p.generator_address) is Some {
        Some(ContractError::Std(opt_err(p.generator_address)->Some_0))
    } else if opt_err(p.coin_registry_address) is Some {
        Some(ContractError::Std(opt_err(p.coin_registry_address)->Some_0))
    } else {
        None
    }
}

/// The general settings after an update: each given field replaces the old one.
pub open spec fn updated_config(c: Config, p: UpdateConfig) -> Config {
    Config {
        owner: c.owner,
        token_code_id: match p.token_code_id {
            Some(v) => v,
            None => c.token_code_id,
        },
        fee_address: match p.fee_address {
            Some(Ok(a)) => Some(a),
            _ => c.fee_address,
        },
        generator_address: match p.generator_address {
            Some(Ok(a)) => Some(a),
            _ => c.generator_address,
        },
        whitelist_code_id: match p.whitelist_code_id {
            Some(v) => v,
            None => c.whitelist_code_id,
        },
        coin_registry_address: match p.coin_registry_address {
            Some(Ok(a)) => a,
            _ => c.coin_registry_address,
        },
    }
}

/// The error of loading the settings of a pair type that has none.
pub open spec fn pair_config_kind() -> Seq<char> {
    "oroswap::factory::PairConfig"@
}

/// The fee settings of a pair type.
#[derive(PartialEq, Eq, Debug)]
pub struct FeeInfoResponse {
    pub fee_address: Option<String>,
    pub total_fee_bps: u16,
    pub maker_fee_bps: u16,
    pub pool_creation_fee: u128,
}

/// The general settings with every pair type's settings.
#[derive(PartialEq, Eq, Debug)]
pub struct ConfigResponse {
    pub owner: String,
    pub token_code_id: u64,
    pub pair_configs: Vec<PairConfig>,
    pub fee_address: Option<String>,
    pub generator_address: Option<String>,
    pub whitelist_code_id: u64,
    pub coin_registry_address: String,
}

/// The pair types that are disabled or get no generator emissions, in key order.
pub open spec fn blacklisted(pcs: Seq<PairConfig>) -> Seq<PairType> {
    pcs.filter(|pc: PairConfig| pc.is_disabled || pc.is_generator_disabled).map_values(
        |pc: PairConfig| pc.pair_type,
    )
}

/// The text of the error of a tracker query when no tracker is set.
pub open spec fn tracker_not_set_text() -> Seq<char> {
    generic_text("Tracker config is not set in the factory. It can't be provided"@)
}

impl Factory {
    /// Updates the general settings. Only the owner may do so.
    pub fn execute_update_config(&mut self, sender: &String, param: UpdateConfig) -> (r: Result<Response<FactoryMsg>, ContractError>)
        requires
            old(self).wf(),
        ensures
            final(self).wf(),
            update_config_outcome(*old(self), *final(self), *sender, param, r),
    {
        if *sender != self.config.owner {
            return Err(ContractError::Unauthorized {});
        }
        let ghost p = param;
        let UpdateConfig {
            token_code_id,
            fee_address,
            generator_address,
            whitelist_code_id,
            coin_registry_address,
        } = param;
        let fee = match take_opt(fee_address) {
            Ok(a) => a,
            Err(e) => return Err(ContractError::Std(e)),
        };
        let generator = match take_opt(generator_address) {
            Ok(a) => a,
            Err(e) => return Err(ContractError::Std(e)),
        };
        let registry = match take_opt(coin_registry_address) {
            Ok(a) => a,
            Err(e) => return Err(ContractError::Std(e)),
        };
        if fee.is_some() {
            self.config.fee_address = fee;
        }
        if generator.is_some() {
            self.config.generator_address = generator;
        }
        if let Some(v) = token_code_id {
            self.config.token_code_id = v;
        }
        if let Some(v) = whitelist_code_id {
            self.config.whitelist_code_id = v;
        }
        if let Some(a) = registry {
            self.config.coin_registry_address = a;
        }
        let mut resp = Response::new();
        resp.add_attribute("action", String::from_str("update_config"));
        Ok(resp)
    }

    /// Sets the settings of a pair type, adding the pair type when it is new.
    /// Only the owner may do so, and both fees must be at most 10,000 basis points.
    pub fn execute_update_pair_config(&mut self, sender: &String, pair_config: PairConfig) -> (r: Result<Response<FactoryMsg>, ContractError>)
        requires
            old(self).wf(),
        ensures
            final(self).wf(),
            update_pair_config_outcome(*old(self), *final(self), *sender, pair_config, r),
    {
        if *sender != self.config.owner {
            return Err(ContractError::Unauthorized {});
        }
        if !pair_config.valid_fee_bps() {
            return Err(ContractError::PairConfigInvalidFeeBps {});
        }
        let key = string_bytes(&pair_config.pair_type.to_string());
        insert_config(&mut self.pair_configs, key, pair_config);
        let mut resp = Response::new();
        resp.add_attribute("action", String::from_str("update_pair_config"));
        Ok(resp)
    }

    /// Sets the tracker's code identifier; when no tracker is set yet, the
    /// token factory address must be given too. Only the owner may do so.
    pub fn update_tracker_config(&mut self, sender: &String, tracker_code_id: u64, token_factory_addr: Option<String>) -> (r: Result<Response<FactoryMsg>, ContractError>)
        requires
            old(self).wf(),
        ensures
            final(self).wf(),
            tracker_config_outcome(*old(self), *final(self), *sender, tracker_code_id, token_factory_addr, r),
    {
        if *sender != self.config.owner {
            return Err(ContractError::Unauthorized {});
        }
        match &mut self.tracker_config {
            Some(t) => {
                t.code_id = tracker_code_id;
            },
            None => match token_factory_addr {
                Some(a) => {
                    self.tracker_config = Some(TrackerConfig { code_id: tracker_code_id, token_factory_addr: a });
                },
                None => {
                    return Err(ContractError::Std(StdError::generic_err(String::from_str("token_factory_addr is required"))));
                },
            },
        }
        let mut resp = Response::new();
        resp.add_attribute("action", String::from_str("update_tracker_config"));
        resp.add_attribute("code_id", decimal(tracker_code_id as u128));
        Ok(resp)
    }

    /// The general settings with every pair type's settings, in key order.
    pub fn query_config(&self) -> (r: ConfigResponse)
        requires
            self.wf(),
        ensures
            r.owner == self.config.owner,
            r.token_code_id == self.config.token_code_id,
            r.pair_configs@ == self.pair_configs.values(),
            r.fee_address == self.config.fee_address,
            r.generator_address == self.config.generator_address,
            r.whitelist_code_id == self.config.whitelist_code_id,
            r.coin_registry_address == self.config.coin_registry_address,
    {
        let mut pcs: Vec<PairConfig> = Vec::new();
        let mut i: usize = 0;
        while i < self.pair_configs.entries.len()
            invariant
                i <= self.pair_configs.size(),
                pcs@ == self.pair_configs.values().take(i as int),
            decreases self.pair_configs.size() - i,
        {
            pcs.push(self.pair_configs.entries[i].1.copy());
            assert(self.pair_configs.values().take(i + 1) =~= self.pair_configs.values().take(i as int).push(
                self.pair_configs.val_at(i as int),
            ));
            i = i + 1;
        }
        assert(self.pair_configs.values().take(i as int) =~= self.pair_configs.values());
        ConfigResponse {
            owner: self.config.owner.clone(),
            token_code_id: self.config.token_code_id,
            pair_configs: pcs,
            fee_address: match &self.config.fee_address {
                Some(a) => Some(a.clone()),
                None => None,
            },
            generator_address: match &self.config.generator_address {
                Some(a) => Some(a.clone()),
                None => None,
            },
            whitelist_code_id: self.config.whitelist_code_id,
            coin_registry_address: self.config.coin_registry_address.clone(),
        }
    }

    /// The fee settings of `pair_type`; an error when the pair type has none.
    pub fn query_fee_info(&self, pair_type: &PairType) -> (r: Result<FeeInfoResponse, StdError>)
        requires
            self.wf(),
        ensures
            !self.state().pair_configs.contains_key(config_key(*pair_type)) ==> (r matches Err(e)
                && e.text@ == not_found_text(pair_config_kind())),
            self.state().pair_configs.contains_key(config_key(*pair_type)) ==> (r matches Ok(info)
                && info.fee_address == self.config.fee_address
                && info.total_fee_bps == self.state().pair_configs[config_key(*pair_type)].total_fee_bps
                && info.maker_fee_bps == self.state().pair_configs[config_key(*pair_type)].maker_fee_bps
                && info.pool_creation_fee == self.state().pair_configs[config_key(*pair_type)].pool_creation_fee),
    {
        let key = string_bytes(&pair_type.to_string());
        match self.pair_configs.get(&key) {
            None => Err(StdError::not_found("oroswap::factory::PairConfig")),
            Some(pc) => Ok(FeeInfoResponse {
                fee_address: match &self.config.fee_address {
                    Some(a) => Some(a.clone()),
                    None => None,
                },
                total_fee_bps: pc.total_fee_bps,
                maker_fee_bps: pc.maker_fee_bps,
                pool_creation_fee: pc.pool_creation_fee,
            }),
        }
    }

    /// The pair types that are disabled or get no generator emissions, in key order.
    pub fn query_blacklisted_pair_types(&self) -> (r: Vec<PairType>)
        requires
            self.wf(),
        ensures
            r@ == blacklisted(self.pair_configs.values()),
    {
        let mut out: Vec<PairType> = Vec::new();
        let mut i: usize = 0;
        let ghost pred = |pc: PairConfig| pc.is_disabled || pc.is_generator_disabled;
        let ghost vals = self.pair_configs.values();
        assert(vals.take(0) =~= Seq::<PairConfig>::empty());
        assert(vals.take(0).filter(pred) =~= Seq::<PairConfig>::empty()) by {
            reveal(Seq::filter);
        }
        while i < self.pair_configs.entries.len()
            invariant
                i <= self.pair_configs.size(),
                vals == self.pair_configs.values(),
                pred == (|pc: PairConfig| pc.is_disabled || pc.is_generator_disabled),
                out@ == vals.take(i as int).filter(pred).map_values(|pc: PairConfig| pc.pair_type),
            decreases self.pair_configs.size() - i,
        {
            let pc = &self.pair_configs.entries[i].1;
            proof {
                assert(vals.take(i + 1) =~= vals.take(i as int).push(*pc));
                vals.take(i as int).lemma_filter_push(*pc, pred);
            }
            if pc.is_disabled || pc.is_generator_disabled {
                out.push(pc.pair_type.copy());
                assert(out@ =~= vals.take(i + 1).filter(pred).map_values(|pc: PairConfig| pc.pair_type));
            }
            i = i + 1;
        }
        assert(vals.take(i as int) =~= vals);
        out
    }

    /// The tracker settings; an error when none are set.
    pub fn query_tracker_config(&self) -> (r: Result<TrackerConfig, StdError>)
        ensures
            match self.tracker_config {
                Some(t) => r == Ok::<TrackerConfig, StdError>(t),
                None => r matches Err(e) && e.text@ == tracker_not_set_text(),
            },
    {
        match &self.tracker_config {
            Some(t) => Ok(t.copy()),
            None => Err(StdError::generic_err(String::from_str(
                "Tracker config is not set in the factory. It can't be provided",
            ))),
        }
    }
}

} // verus!
