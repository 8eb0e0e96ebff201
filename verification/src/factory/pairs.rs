//! Creating, registering, deregistering and listing pairs.
use vstd::prelude::*;
use vstd::string::*;
use crate::asset::{AssetInfo, Coin, PairType, asset_name, pair_type_text, string_bytes,
    copy_asset_infos};
use crate::error::{StdError, generic_text, not_found_text, addr_kind, pair_not_found};
use crate::factory::types::{ContractError, Factory, FactoryMsg, FactoryState, PairConfig, TmpPairInfo,
    config_key};
use crate::factory::checks::{asset_infos_error, asset_refusal, check_asset_infos, has_asset_error};
use crate::factory::pausing::first_n;
use crate::factory::order::{find_key, key_pos, lemma_key_pos, lemma_lists_once_push, lemma_lists_once_remove, remove_key};
use crate::keys::{pair_key, pair_key_spec};
use crate::outside::{instantiate_reply_address, parse_instantiate_reply};
use crate::response::Response;
use crate::text::{dec, decimal, join, join_strings};

verus! {

/// The denomination in which the pool creation fee is paid.
pub open spec fn fee_denom() -> Seq<char> {
    "uzig"@
}

/// The first coin sent in the fee denomination, if any.
pub open spec fn fee_coin(funds: Seq<Coin>) -> Option<Coin>
    decreases funds.len(),
{
    if funds.len() == 0 {
        None
    } else if funds[0].denom@ == fee_denom() {
        Some(funds[0])
    } else {
        fee_coin(funds.drop_first())
    }
}

/// The state after a pair creation is started for the pair under `key`.
pub open spec fn pending_state(s: FactoryState, key: Seq<u8>) -> FactoryState {
    FactoryState { tmp_key: Some(key), ..s }
}

/// The state after the pending pair is registered at `addr`, as the newest pair.
pub open spec fn registered_state(s: FactoryState, addr: String) -> FactoryState {
    FactoryState { pairs: s.pairs.insert(s.tmp_key->Some_0, addr), order: s.order.push(s.tmp_key->Some_0), ..s }
}

/// The error that creating a pair gives once its assets passed their checks.
pub open spec fn create_pair_error(s: FactoryState, sender: Seq<char>, funds: Seq<Coin>, pair_type: PairType, key: Seq<u8>) -> Option<ContractError> {
    if s.pairs.contains_key(key) {
        Some(ContractError::PairWasCreated {})
    } else if !s.pair_configs.contains_key(config_key(pair_type)) {
        Some(ContractError::PairConfigNotFound {})
    } else if s.pair_configs[config_key(pair_type)].permissioned && sender != s.config.owner@ {
        Some(ContractError::Unauthorized {})
    } else if s.pair_configs[config_key(pair_type)].is_disabled {
        Some(ContractError::PairConfigDisabled {})
    } else if fee_coin(funds) is None {
        Some(ContractError::MissingPoolCreationFee {})
    } else if fee_coin(funds)->Some_0.amount < s.pair_configs[config_key(pair_type)].pool_creation_fee {
        Some(ContractError::InvalidPoolCreationFee { required: s.pair_configs[config_key(pair_type)].pool_creation_fee })
    } else {
        None
    }
}

/// The attributes of a pair creation.
pub open spec fn create_pair_attrs(assets: Seq<AssetInfo>, pair_type: PairType, fee: u128, funds: Seq<Coin>) -> Seq<(Seq<char>, Seq<char>)> {
    seq![
        ("action"@, "create_pair"@),
        ("pair"@, join(assets.map_values(|a: AssetInfo| asset_name(a)), "-"@)),
        ("pair_type"@, pair_type_text(pair_type)),
        ("pool_creation_fee"@, dec(fee as nat)),
        ("total_funds"@, join(funds.map_values(|c: Coin| dec(c.amount as nat)), ","@)),
    ]
}

/// The first coin sent in the fee denomination, if any.
fn find_fee_coin(funds: &Vec<Coin>) -> (r: Option<u128>)
    ensures
        match fee_coin(funds@) {
            None => r is None,
            Some(c) => r == Some(c.amount),
        },
{
    let mut i: usize = 0;
    let denom = String::from_str("uzig");
    assert(funds@.skip(0) =~= funds@);
    while i < funds.len()
        invariant
            i <= funds@.len(),
            denom@ == fee_denom(),
            fee_coin(funds@) == fee_coin(funds@.skip(i as int)),
        decreases funds.len() - i,
    {
        assert(funds@.skip(i as int)[0] == funds@[i as int]);
        if funds[i].denom == denom {
            return Some(funds[i].amount);
        }
        assert(funds@.skip(i as int).drop_first() =~= funds@.skip(i + 1));
        i = i + 1;
    }
    None
}

/// The display names of the assets.
fn asset_names(assets: &Vec<AssetInfo>) -> (r: Vec<String>)
    ensures
        r@.map_values(|p: String| p@) == assets@.map_values(|a: AssetInfo| asset_name(a)),
{
    let mut r: Vec<String> = Vec::new();
    let mut i: usize = 0;
    while i < assets.len()
        invariant
            i <= assets@.len(),
            r@.len() == i,
            forall|k: int| 0 <= k < i ==> #[trigger] r@[k]@ == asset_name(assets@[k]),
        decreases assets.len() - i,
    {
        r.push(assets[i].to_string());
        i = i + 1;
    }
    assert(r@.map_values(|p: String| p@) =~= assets@.map_values(|a: AssetInfo| asset_name(a)));
    r
}

/// The decimal amounts of the coins.
fn coin_amounts(funds: &Vec<Coin>) -> (r: Vec<String>)
    ensures
        r@.map_values(|p: String| p@) == funds@.map_values(|c: Coin| dec(c.amount as nat)),
{
    let mut r: Vec<String> = Vec::new();
    let mut i: usize = 0;
    while i < funds.len()
        invariant
            i <= funds@.len(),
            r@.len() == i,
            forall|k: int| 0 <= k < i ==> #[trigger] r@[k]@ == dec(funds@[k].amount as nat),
        decreases funds.len() - i,
    {
        r.push(decimal(funds[i].amount));
        i = i + 1;
    }
    assert(r@.map_values(|p: String| p@) =~= funds@.map_values(|c: Coin| dec(c.amount as nat)));
    r
}

/// The kind name under which a missing pending pair is reported.
pub open spec fn tmp_pair_kind() -> Seq<char> {
    "oroswap_factory::state::TmpPairInfo"@
}

/// The keys of the pairs listed after the pair stored under `start`: those
/// created after it, oldest first; all pairs, oldest first, when there is no
/// start; none when no pair is stored under `start`.
pub open spec fn listed_after(order: Seq<Seq<u8>>, start: Option<Seq<u8>>) -> Seq<Seq<u8>> {
    match start {
        None => order,
        Some(k) => if order.contains(k) {
            order.skip(key_pos(order, k) + 1)
        } else {
            Seq::empty()
        },
    }
}

/// The addresses of at most `limit` pairs listed after `start`, oldest first.
pub open spec fn pairs_page(s: FactoryState, start: Option<Seq<u8>>, limit: nat) -> Seq<String> {
    first_n(listed_after(s.order, start), limit).map_values(|k: Seq<u8>| s.pairs[k])
}

/// The default number of pairs in a listing.
pub const DEFAULT_LIMIT: u32 = 10;
/// The largest number of pairs in a listing.
pub const MAX_LIMIT: u32 = 30;

/// The number of pairs a listing asks for, after the default and the cap.
pub open spec fn effective_limit(limit: Option<u32>) -> nat {
    let l = match limit {
        Some(v) => v,
        None => DEFAULT_LIMIT,
    };
    if l < MAX_LIMIT {
        l as nat
    } else {
        MAX_LIMIT as nat
    }
}

/// The addresses of the pairs stored for `assets` under each pair type, in
/// the key order of the pair type settings.
pub open spec fn pairs_of_types(types: Seq<PairConfig>, pairs: Map<Seq<u8>, String>, assets: Seq<AssetInfo>) -> Seq<String>
    decreases types.len(),
{
    if types.len() == 0 {
        Seq::empty()
    } else {
        let rest = pairs_of_types(types.drop_last(), pairs, assets);
        let k = pair_key_spec(assets, types.last().pair_type);
        if pairs.contains_key(k) {
            rest.push(pairs[k])
        } else {
            rest
        }
    }
}

/// What starting a pair creation does: the factory goes from `old` to `new` and answers `r`.
pub open spec fn create_pair_outcome(
    old: Factory,
    new: Factory,
    sender: String,
    funds: Vec<Coin>,
    contract_addr: String,
    pair_type: PairType,
    asset_infos: Vec<AssetInfo>,
    token_checks: Vec<Result<(), StdError>>,
    init_params: Option<Vec<u8>>,
    r: Result<Response<FactoryMsg>, ContractError>,
) -> bool {
    &&& (has_asset_error(asset_infos@, token_checks@) ==> asset_refusal(asset_infos@, token_checks@, r)
        && new == old)
    &&& (asset_infos_error(asset_infos@, token_checks@) is None && create_pair_error(old.state(), sender@, funds@, pair_type, pair_key_spec(asset_infos@, pair_type)) is Some
        ==> r == Err::<Response<FactoryMsg>, ContractError>(create_pair_error(old.state(), sender@, funds@, pair_type, pair_key_spec(asset_infos@, pair_type))->Some_0)
        && new == old)
    &&& (asset_infos_error(asset_infos@, token_checks@) is None && create_pair_error(old.state(), sender@, funds@, pair_type, pair_key_spec(asset_infos@, pair_type)) is None
        ==> (r matches Ok(resp) && new.state() =~= pending_state(old.state(), pair_key_spec(asset_infos@, pair_type))
        && resp.messages@.len() == 1 && (resp.messages@[0] matches FactoryMsg::InstantiatePair {
            admin, code_id, pair_type: pt, asset_infos: ai, token_code_id, factory_addr, init_params: ip, funds: fs, label
        } && admin == old.config.owner
            && code_id == old.state().pair_configs[config_key(pair_type)].code_id
            && pt == pair_type && ai == asset_infos && token_code_id == old.config.token_code_id
            && factory_addr == contract_addr && ip == init_params && fs == funds
            && label@ == "Oroswap pair "@ + pair_type_text(pair_type))
        && resp.attrs() =~= create_pair_attrs(asset_infos@, pair_type,
            old.state().pair_configs[config_key(pair_type)].pool_creation_fee, funds@)))
}

/// What deregistering a pair does: the factory goes from `old` to `new` and answers `r`.
pub open spec fn deregister_outcome(
    old: Factory,
    new: Factory,
    sender: String,
    asset_infos: Vec<AssetInfo>,
    token_checks: Vec<Result<(), StdError>>,
    pair_type: PairType,
    r: Result<Response<FactoryMsg>, ContractError>,
) -> bool {
    &&& (has_asset_error(asset_infos@, token_checks@) ==> asset_refusal(asset_infos@, token_checks@, r)
        && new == old)
    &&& (asset_infos_error(asset_infos@, token_checks@) is None && sender@ != old.config.owner@
        ==> r == Err::<Response<FactoryMsg>, ContractError>(ContractError::Unauthorized {}) && new == old)
    &&& (asset_infos_error(asset_infos@, token_checks@) is None && sender@ == old.config.owner@
        && !old.state().pairs.contains_key(pair_key_spec(asset_infos@, pair_type))
        ==> (r matches Err(ContractError::Std(e)) && e.text@ == not_found_text(addr_kind()) && new == old))
    &&& (asset_infos_error(asset_infos@, token_checks@) is None && sender@ == old.config.owner@
        && old.state().pairs.contains_key(pair_key_spec(asset_infos@, pair_type))
        ==> (r matches Ok(resp) && new.state() =~= (FactoryState {
            pairs: old.state().pairs.remove(pair_key_spec(asset_infos@, pair_type)),
            order: old.state().order.remove(key_pos(old.state().order, pair_key_spec(asset_infos@, pair_type))),
            ..old.state()
        }) && resp.messages@ =~= (match old.config.generator_address {
            Some(g) => seq![FactoryMsg::DeactivatePool {
                generator: g,
                pair: old.state().pairs[pair_key_spec(asset_infos@, pair_type)],
            }],
            None => Seq::<FactoryMsg>::empty(),
        }) && resp.attrs() =~= seq![
            ("action"@, "deregister"@),
            ("pair_contract_addr"@, old.state().pairs[pair_key_spec(asset_infos@, pair_type)]@),
            ("pair_type"@, pair_type_text(pair_type)),
        ]))
}

/// The texts of an address read from a reply, or of the error that reading
/// it gave.
pub open spec fn texts(parsed: Result<String, String>) -> Result<Seq<char>, Seq<char>> {
    match parsed {
        Ok(a) => Ok(a@),
        Err(m) => Err(m@),
    }
}

/// What registering the pending pair at the address read from its
/// instantiation reply (`parsed`) does: the factory goes from `old` to `new`
/// and answers `r`.
pub open spec fn register_outcome(
    old: Factory,
    new: Factory,
    parsed: Result<Seq<char>, Seq<char>>,
    address_check: Result<(), StdError>,
    r: Result<Response<FactoryMsg>, ContractError>,
) -> bool {
    &&& (r is Err ==> new == old)
    &&& (old.tmp_pair_info is None ==> (r matches Err(ContractError::Std(e)) && e.text@ == not_found_text(tmp_pair_kind())))
    &&& (old.tmp_pair_info is Some && old.state().pairs.contains_key(old.tmp_pair_info->Some_0.pair_key@)
        ==> r == Err::<Response<FactoryMsg>, ContractError>(ContractError::PairWasRegistered {}))
    &&& (old.tmp_pair_info is Some && !old.state().pairs.contains_key(old.tmp_pair_info->Some_0.pair_key@)
        ==> match parsed {
        Err(m) => r matches Err(ContractError::Std(e)) && e.text@ == generic_text(m),
        Ok(a) => match address_check {
            Err(e) => r == Err::<Response<FactoryMsg>, ContractError>(ContractError::Std(e)),
            Ok(_) => r matches Ok(resp) && ({
                let key = old.tmp_pair_info->Some_0.pair_key@;
                &&& new.state() =~= registered_state(old.state(), new.state().pairs[key])
                &&& new.state().pairs[key]@ == a
                &&& resp.messages@.len() == 0
                &&& resp.attrs() =~= seq![("action"@, "register"@), ("pair_contract_addr"@, a)]
            }),
        },
    })
}

impl Factory {
    /// Starts creating a pair of `pair_type` for `asset_infos`: checks the
    /// assets, that the pair does not exist yet, that its pair type is set up
    /// and enabled (and, when permissioned, that the owner asks), and that the
    /// pool creation fee was sent; then remembers the pair's key and asks for
    /// the pair contract to be instantiated, by `contract_addr`'s factory.
    pub fn execute_create_pair(
        &mut self,
        sender: &String,
        funds: Vec<Coin>,
        contract_addr: &String,
        pair_type: PairType,
        asset_infos: Vec<AssetInfo>,
        token_checks: &Vec<Result<(), StdError>>,
        init_params: Option<Vec<u8>>,
    ) -> (r: Result<Response<FactoryMsg>, ContractError>)
        requires
            old(self).wf(),
            token_checks@.len() == asset_infos@.len(),
        ensures
            final(self).wf(),
            create_pair_outcome(*old(self), *final(self), *sender, funds, *contract_addr, pair_type, asset_infos, *token_checks, init_params, r),
    {
        match check_asset_infos(&asset_infos, token_checks) {
            Ok(_) => {},
            Err(e) => return Err(e),
        }
        let key = pair_key(&asset_infos, &pair_type);
        if self.pairs.contains(&key) {
            return Err(ContractError::PairWasCreated {});
        }
        let type_key = string_bytes(&pair_type.to_string());
        let pc = match self.pair_configs.get(&type_key) {
            Some(pc) => pc.copy(),
            None => return Err(ContractError::PairConfigNotFound {}),
        };
        if pc.permissioned && *sender != self.config.owner {
            return Err(ContractError::Unauthorized {});
        }
        if pc.is_disabled {
            return Err(ContractError::PairConfigDisabled {});
        }
        let fee = pc.pool_creation_fee;
        match find_fee_coin(&funds) {
            Some(amount) => {
                if amount < fee {
                    return Err(ContractError::InvalidPoolCreationFee { required: fee });
                }
            },
            None => return Err(ContractError::MissingPoolCreationFee {}),
        }
        self.tmp_pair_info = Some(TmpPairInfo { pair_key: key });
        let names = asset_names(&asset_infos);
        let amounts = coin_amounts(&funds);
        let mut label = String::from_str("Oroswap pair ");
        let type_text = pair_type.to_string();
        label.append(type_text.as_str());
        let mut resp = Response::new();
        resp.add_attribute("action", String::from_str("create_pair"));
        resp.add_attribute("pair", join_strings(&names, "-"));
        resp.add_attribute("pair_type", type_text);
        resp.add_attribute("pool_creation_fee", decimal(fee));
        resp.add_attribute("total_funds", join_strings(&amounts, ","));
        resp.add_message(FactoryMsg::InstantiatePair {
            admin: self.config.owner.clone(),
            code_id: pc.code_id,
            pair_type,
            asset_infos,
            token_code_id: self.config.token_code_id,
            factory_addr: contract_addr.clone(),
            init_params,
            funds,
            label,
        });
        Ok(resp)
    }

    /// Reads the address of the newly instantiated pair from the reply to the
    /// instantiation (`id` 1, carrying `data`), after checking that a pair
    /// creation is pending and its key not yet registered.
    pub fn reply_pair_address(&self, id: u64, data: &Option<Vec<u8>>) -> (r: Result<String, ContractError>)
        requires
            self.wf(),
        ensures
            (id != 1 || data is None) ==> r == Err::<String, ContractError>(ContractError::FailedToParseReply {}),
            id == 1 && data is Some && self.tmp_pair_info is None ==> (r matches Err(ContractError::Std(e))
                && e.text@ == not_found_text(tmp_pair_kind())),
            id == 1 && data is Some && self.tmp_pair_info is Some && self.state().pairs.contains_key(
                self.tmp_pair_info->Some_0.pair_key@) ==> r == Err::<String, ContractError>(ContractError::PairWasRegistered {}),
            id == 1 && data is Some && self.tmp_pair_info is Some && !self.state().pairs.contains_key(
                self.tmp_pair_info->Some_0.pair_key@) ==> match instantiate_reply_address(data->Some_0@) {
                Ok(a) => r matches Ok(x) && x@ == a,
                Err(m) => r matches Err(ContractError::Std(e)) && e.text@ == generic_text(m),
            },
    {
        if id != 1 {
            return Err(ContractError::FailedToParseReply {});
        }
        let data = match data {
            Some(d) => d,
            None => return Err(ContractError::FailedToParseReply {}),
        };
        let tmp = match &self.tmp_pair_info {
            Some(t) => t,
            None => return Err(ContractError::Std(StdError::not_found("oroswap_factory::state::TmpPairInfo"))),
        };
        if self.pairs.contains(&tmp.pair_key) {
            return Err(ContractError::PairWasRegistered {});
        }
        match parse_instantiate_reply(data.as_slice()) {
            Ok(a) => Ok(a),
            Err(m) => Err(ContractError::Std(StdError::generic_err(m))),
        }
    }

    /// Registers the pending pair at the address that the reply to its
    /// instantiation carried (`parsed`: the address, or the text of the error
    /// that reading it gave), when the chain's address check accepted that
    /// address (`address_check`).
    pub fn register_parsed(&mut self, parsed: Result<String, String>, address_check: Result<(), StdError>) -> (r: Result<Response<FactoryMsg>, ContractError>)
        requires
            old(self).wf(),
        ensures
            final(self).wf(),
            register_outcome(*old(self), *final(self), texts(parsed), address_check, r),
    {
        let key = match &self.tmp_pair_info {
            Some(t) => vstd::slice::slice_to_vec(t.pair_key.as_slice()),
            None => return Err(ContractError::Std(StdError::not_found("oroswap_factory::state::TmpPairInfo"))),
        };
        if self.pairs.contains(&key) {
            return Err(ContractError::PairWasRegistered {});
        }
        let addr = match parsed {
            Ok(a) => a,
            Err(m) => return Err(ContractError::Std(StdError::generic_err(m))),
        };
        if let Err(e) = address_check {
            return Err(ContractError::Std(e));
        }
        let listed = vstd::slice::slice_to_vec(key.as_slice());
        proof {
            lemma_lists_once_push(self.state().order, self.pairs.map().dom(), key@);
        }
        self.pairs.insert(key, addr.clone());
        self.pair_order.push(listed);
        assert(self.state().order =~= old(self).state().order.push(listed@));
        assert(self.pairs.map().dom() =~= old(self).pairs.map().dom().insert(listed@));
        let mut resp = Response::new();
        resp.add_attribute("action", String::from_str("register"));
        resp.add_attribute("pair_contract_addr", addr);
        Ok(resp)
    }

    /// Handles the reply to the pair's instantiation (`id` 1, carrying
    /// `data`): reads the new pair's address from it and registers the pair
    /// there (see `register_parsed`).
    pub fn reply(&mut self, id: u64, data: &Option<Vec<u8>>, address_check: Result<(), StdError>) -> (r: Result<Response<FactoryMsg>, ContractError>)
        requires
            old(self).wf(),
        ensures
            final(self).wf(),
            (id != 1 || data is None) ==> r == Err::<Response<FactoryMsg>, ContractError>(ContractError::FailedToParseReply {})
                && *final(self) == *old(self),
            id == 1 && data is Some ==> register_outcome(*old(self), *final(self),
                instantiate_reply_address(data->Some_0@), address_check, r),
    {
        if id != 1 {
            return Err(ContractError::FailedToParseReply {});
        }
        let data = match data {
            Some(d) => d,
            None => return Err(ContractError::FailedToParseReply {}),
        };
        let parsed = parse_instantiate_reply(data.as_slice());
        self.register_parsed(parsed, address_check)
    }

    /// Removes a pair from the factory; when a generator is set, asks it to stop
    /// the pair's LP token allocation. Only the owner may do so.
    pub fn deregister(
        &mut self,
        sender: &String,
        asset_infos: &Vec<AssetInfo>,
        token_checks: &Vec<Result<(), StdError>>,
        pair_type: &PairType,
    ) -> (r: Result<Response<FactoryMsg>, ContractError>)
        requires
            old(self).wf(),
            token_checks@.len() == asset_infos@.len(),
        ensures
            final(self).wf(),
            deregister_outcome(*old(self), *final(self), *sender, *asset_infos, *token_checks, *pair_type, r),
    {
        match check_asset_infos(asset_infos, token_checks) {
            Ok(_) => {},
            Err(e) => return Err(e),
        }
        if *sender != self.config.owner {
            return Err(ContractError::Unauthorized {});
        }
        let key = pair_key(asset_infos, pair_type);
        proof {
            if self.pairs.map().contains_key(key@) {
                lemma_lists_once_remove(self.state().order, self.pairs.map().dom(), key@);
            }
        }
        let pair_addr = match self.pairs.remove(&key) {
            Some(a) => a,
            None => return Err(ContractError::Std(pair_not_found())),
        };
        remove_key(&mut self.pair_order, &key);
        assert(self.pairs.map().dom() =~= old(self).pairs.map().dom().remove(key@));
        let mut resp = Response::new();
        match &self.config.generator_address {
            Some(g) => {
                resp.add_message(FactoryMsg::DeactivatePool { generator: g.clone(), pair: pair_addr.clone() });
            },
            None => {},
        }
        resp.add_attribute("action", String::from_str("deregister"));
        resp.add_attribute("pair_contract_addr", pair_addr);
        resp.add_attribute("pair_type", pair_type.to_string());
        Ok(resp)
    }

    /// The address of the pair of `asset_infos` and `pair_type`.
    pub fn query_pair(&self, asset_infos: &Vec<AssetInfo>, pair_type: &PairType) -> (r: Result<String, StdError>)
        requires
            self.wf(),
        ensures
            self.state().pairs.contains_key(pair_key_spec(asset_infos@, *pair_type)) ==> r == Ok::<String, StdError>(
                self.state().pairs[pair_key_spec(asset_infos@, *pair_type)],
            ),
            !self.state().pairs.contains_key(pair_key_spec(asset_infos@, *pair_type)) ==> (r matches Err(e)
                && e.text@ == not_found_text(addr_kind())),
    {
        let key = pair_key(asset_infos, pair_type);
        match self.pairs.get(&key) {
            Some(a) => Ok(a.clone()),
            None => Err(pair_not_found()),
        }
    }

    /// The addresses of the pairs created after the given pair, oldest first
    /// (from the oldest pair when no pair is given, none when the given pair is
    /// not stored): at most `limit` of them (10 when not given, never more than
    /// 30). Paging with the last pair of a page as the next start walks all
    /// pairs in the order of their creation.
    pub fn read_pairs(&self, start_after: Option<(&Vec<AssetInfo>, &PairType)>, limit: Option<u32>) -> (r: Vec<String>)
        requires
            self.wf(),
        ensures
            r@ == pairs_page(self.state(), match start_after {
                Some((a, t)) => Some(pair_key_spec(a@, *t)),
                None => None,
            }, effective_limit(limit)),
    {
        let lim = match limit {
            Some(v) => v,
            None => DEFAULT_LIMIT,
        };
        let lim: u32 = if lim < MAX_LIMIT { lim } else { MAX_LIMIT };
        let ghost ks = self.state().order;
        let ghost pairs = self.state().pairs;
        let ghost addr_of = |k: Seq<u8>| pairs[k];
        let ghost sk: Option<Seq<u8>> = match start_after {
            Some((a, t)) => Some(pair_key_spec(a@, *t)),
            None => None,
        };
        let begin: usize = match start_after {
            None => 0,
            Some((a, t)) => {
                let key = pair_key(a, t);
                let n = self.pair_order.len();
                match find_key(&self.pair_order, &key) {
                    Some(i) => {
                        proof {
                            lemma_key_pos(ks, i as int);
                        }
                        i + 1
                    },
                    None => {
                        assert(listed_after(ks, sk) =~= Seq::<Seq<u8>>::empty());
                        return Vec::new();
                    },
                }
            },
        };
        assert(listed_after(ks, sk) =~= ks.skip(begin as int));
        let mut out: Vec<String> = Vec::new();
        let mut j: usize = begin;
        while j < self.pair_order.len() && out.len() < lim as usize
            invariant
                self.wf(),
                ks == self.state().order,
                pairs == self.state().pairs,
                addr_of == (|k: Seq<u8>| pairs[k]),
                begin <= j <= ks.len(),
                out@.len() == j - begin,
                out@.len() <= lim,
                out@ == ks.subrange(begin as int, j as int).map_values(addr_of),
            decreases ks.len() - j,
        {
            let k = &self.pair_order[j];
            proof {
                assert(ks[j as int] == k@);
                assert(ks.contains(k@));
            }
            match self.pairs.get(k) {
                Some(a) => {
                    out.push(a.clone());
                },
                None => {},
            }
            assert(out@ =~= ks.subrange(begin as int, j + 1).map_values(addr_of));
            j = j + 1;
        }
        proof {
            let rest = ks.skip(begin as int);
            if j == ks.len() && out@.len() < lim {
                assert(first_n(rest, lim as nat) =~= ks.subrange(begin as int, j as int));
            } else {
                assert(first_n(rest, lim as nat) =~= ks.subrange(begin as int, j as int));
            }
        }
        out
    }

    /// The addresses of the pairs stored for `asset_infos` under any configured
    /// pair type, in the key order of the pair type settings.
    pub fn query_pairs_by_assets(&self, asset_infos: &Vec<AssetInfo>) -> (r: Vec<String>)
        requires
            self.wf(),
        ensures
            r@ == pairs_of_types(self.pair_configs.values(), self.state().pairs, asset_infos@),
    {
        let mut out: Vec<String> = Vec::new();
        let mut i: usize = 0;
        let ghost vals = self.pair_configs.values();
        while i < self.pair_configs.entries.len()
            invariant
                i <= vals.len(),
                vals == self.pair_configs.values(),
                self.wf(),
                out@ == pairs_of_types(vals.take(i as int), self.state().pairs, asset_infos@),
            decreases vals.len() - i,
        {
            let key = pair_key(asset_infos, &self.pair_configs.entries[i].1.pair_type);
            assert(vals.take(i + 1).drop_last() =~= vals.take(i as int));
            match self.pairs.get(&key) {
                Some(a) => {
                    out.push(a.clone());
                },
                None => {},
            }
            i = i + 1;
        }
        assert(vals.take(i as int) =~= vals);
        out
    }
}

} // verus!
