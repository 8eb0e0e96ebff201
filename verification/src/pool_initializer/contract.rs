//! The pool initializer's operations: it asks the factory for a pair, then
//! provides the pair's first liquidity with the caller's coins and tokens.
use vstd::prelude::*;
use vstd::string::*;
use crate::asset::{Asset, AssetInfo, Coin, PairType, copy_asset_infos, copy_coins};
use crate::error::{Checked, StdError, not_found_text};
use crate::pool_initializer::types::{Config, ConfigResponse, ContractError, ExecuteMsg,
    PendingLiquidity, PoolInitializer, PoolMsg, ProvideLiquidityParams, QueryMsg, CREATE_PAIR_REPLY_ID,
    PROVIDE_LIQUIDITY_REPLY_ID};
use crate::response::Response;
use crate::text::{dec, decimal};

verus! {

/// The fee part and the liquidity part of the coins sent, in their order: of
/// each coin in the fee denomination, the fee goes to the factory and the rest,
/// when not zero, to the liquidity (all of it goes to the factory when it does
/// not cover the fee); every other coin goes to the liquidity.
pub open spec fn split_funds(funds: Seq<Coin>, denom: Seq<char>, fee: u128) -> (Seq<Coin>, Seq<Coin>)
    decreases funds.len(),
{
    if funds.len() == 0 {
        (Seq::empty(), Seq::empty())
    } else {
        let (f, l) = split_funds(funds.drop_last(), denom, fee);
        let c = funds.last();
        if c.denom@ == denom {
            if c.amount >= fee {
                let f2 = f.push(Coin { denom: c.denom, amount: fee });
                if c.amount - fee != 0 {
                    (f2, l.push(Coin { denom: c.denom, amount: (c.amount - fee) as u128 }))
                } else {
                    (f2, l)
                }
            } else {
                (f.push(c), l)
            }
        } else {
            (f, l.push(c))
        }
    }
}

/// The CW20 token contracts and amounts among the assets, in their order.
pub open spec fn cw20_transfers(assets: Seq<Asset>) -> Seq<(Seq<char>, u128)>
    decreases assets.len(),
{
    if assets.len() == 0 {
        Seq::empty()
    } else {
        let r = cw20_transfers(assets.drop_last());
        match assets.last().info {
            AssetInfo::Token { contract_addr } => r.push((contract_addr@, assets.last().amount)),
            AssetInfo::NativeToken { .. } => r,
        }
    }
}

/// The total amount of `denom` among the coins.
pub open spec fn total(coins: Seq<Coin>, denom: Seq<char>) -> int
    decreases coins.len(),
{
    if coins.len() == 0 {
        0
    } else {
        total(coins.drop_last(), denom) + if coins.last().denom@ == denom {
            coins.last().amount as int
        } else {
            0
        }
    }
}

/// The texts of a list of token transfers.
pub open spec fn transfer_texts(v: Seq<(String, u128)>) -> Seq<(Seq<char>, u128)> {
    v.map_values(|p: (String, u128)| (p.0@, p.1))
}

/// The kind name under which a missing pending operation is reported.
pub open spec fn pending_kind() -> Seq<char> {
    "oroswap_pool_initializer::state::PendingLiquidity"@
}

/// The pool initializer after an update of its settings.
pub open spec fn updated_config(c: Config, factory_addr: Option<Checked>, pair_creation_fee: Option<u128>, fee_denom: Option<String>) -> Config {
    Config {
        factory_addr: if factory_addr is Some { factory_addr->Some_0->Ok_0 } else { c.factory_addr },
        pair_creation_fee: if pair_creation_fee is Some { pair_creation_fee->Some_0 } else { c.pair_creation_fee },
        fee_denom: if fee_denom is Some { fee_denom->Some_0 } else { c.fee_denom },
        ..c
    }
}

/// Splits the coins sent into the factory's part and the liquidity's part.
pub fn split_funds_exec(funds: &Vec<Coin>, denom: &String, fee: u128) -> (r: (Vec<Coin>, Vec<Coin>))
    ensures
        (r.0@, r.1@) == split_funds(funds@, denom@, fee),
{
    let mut factory_funds: Vec<Coin> = Vec::new();
    let mut liquidity_funds: Vec<Coin> = Vec::new();
    let mut i: usize = 0;
    while i < funds.len()
        invariant
            i <= funds@.len(),
            (factory_funds@, liquidity_funds@) == split_funds(funds@.take(i as int), denom@, fee),
        decreases funds.len() - i,
    {
        assert(funds@.take(i + 1).drop_last() =~= funds@.take(i as int));
        assert(funds@.take(i + 1).last() == funds@[i as int]);
        let c = &funds[i];
        if c.denom == *denom {
            if c.amount >= fee {
                factory_funds.push(Coin { denom: c.denom.clone(), amount: fee });
                let remaining = c.amount - fee;
                if remaining != 0 {
                    liquidity_funds.push(Coin { denom: c.denom.clone(), amount: remaining });
                }
            } else {
                factory_funds.push(c.copy());
            }
        } else {
            liquidity_funds.push(c.copy());
        }
        i = i + 1;
    }
    assert(funds@.take(funds@.len() as int) =~= funds@);
    (factory_funds, liquidity_funds)
}

/// The CW20 token contracts and amounts among the assets.
pub fn cw20_transfers_exec(assets: &Vec<Asset>) -> (r: Vec<(String, u128)>)
    ensures
        transfer_texts(r@) == cw20_transfers(assets@),
{
    let mut r: Vec<(String, u128)> = Vec::new();
    let mut i: usize = 0;
    while i < assets.len()
        invariant
            i <= assets@.len(),
            transfer_texts(r@) == cw20_transfers(assets@.take(i as int)),
        decreases assets.len() - i,
    {
        assert(assets@.take(i + 1).drop_last() =~= assets@.take(i as int));
        assert(assets@.take(i + 1).last() == assets@[i as int]);
        let ghost prev = r@;
        match &assets[i].info {
            AssetInfo::Token { contract_addr } => {
                r.push((contract_addr.clone(), assets[i].amount));
                assert(transfer_texts(r@) =~= transfer_texts(prev).push((contract_addr@, assets@[i as int].amount)));
            },
            AssetInfo::NativeToken { .. } => {},
        }
        i = i + 1;
    }
    assert(assets@.take(assets@.len() as int) =~= assets@);
    r
}

/// A copy of a list of assets.
fn copy_assets(v: &Vec<Asset>) -> (r: Vec<Asset>)
    ensures
        r@ == v@,
{
    let mut r: Vec<Asset> = Vec::new();
    let mut i: usize = 0;
    while i < v.len()
        invariant
            i <= v@.len(),
            r@ == v@.take(i as int),
        decreases v.len() - i,
    {
        r.push(v[i].copy());
        assert(v@.take(i + 1) =~= v@.take(i as int).push(v@[i as int]));
        i = i + 1;
    }
    assert(v@.take(v@.len() as int) =~= v@);
    r
}

/// A copy of optional bytes.
fn copy_bytes(b: &Option<Vec<u8>>) -> (r: Option<Vec<u8>>)
    ensures
        r is Some <==> b is Some,
        r is Some ==> r->Some_0@ == b->Some_0@,
{
    match b {
        Some(v) => Some(vstd::slice::slice_to_vec(v.as_slice())),
        None => None,
    }
}

/// A copy of a string held in an option.
fn copy_opt_string(s: &Option<String>) -> (r: Option<String>)
    ensures
        r == *s,
{
    match s {
        Some(v) => Some(v.clone()),
        None => None,
    }
}

/// The messages that follow the pair's creation: the transfers of the CW20
/// tokens from the sender to this contract, then the allowances for the pair,
/// then the provision of liquidity.
pub open spec fn follow_up_ok(msgs: Seq<PoolMsg>, p: PendingLiquidity, contract_addr: Seq<char>, pair_addr: Seq<char>) -> bool {
    let t = transfer_texts(p.cw20_messages@);
    let n = t.len() as int;
    &&& msgs.len() == 2 * n + 1
    &&& forall|i: int| 0 <= i < n ==> (#[trigger] msgs[i] matches PoolMsg::Cw20TransferFrom { token, owner, recipient, amount }
        && token@ == t[i].0 && owner@ == p.sender@ && recipient@ == contract_addr && amount == t[i].1)
    &&& forall|i: int| 0 <= i < n ==> (#[trigger] msgs[n + i] matches PoolMsg::Cw20IncreaseAllowance { token, spender, amount }
        && token@ == t[i].0 && spender@ == pair_addr && amount == t[i].1)
    &&& (msgs[2 * n] matches PoolMsg::ProvideLiquidity { pair_addr: a, assets, slippage_tolerance, receiver, min_lp_to_receive, funds }
        && a@ == pair_addr && assets@ == p.liquidity.assets@ && slippage_tolerance == p.liquidity.slippage_tolerance
        && receiver is Some && receiver->Some_0@ == (if p.liquidity.receiver is Some { p.liquidity.receiver->Some_0@ } else { p.sender@ })
        && min_lp_to_receive == p.liquidity.min_lp_to_receive && funds@ == p.funds@)
}

/// What creating a pair and providing its liquidity does: the pool
/// initializer goes from `old` to `new` and answers `r`.
pub open spec fn create_outcome(
    old: PoolInitializer,
    new: PoolInitializer,
    sender: String,
    funds: Seq<Coin>,
    pair_type: PairType,
    asset_infos: Seq<AssetInfo>,
    init_params: Option<Vec<u8>>,
    liquidity: ProvideLiquidityParams,
    r: Result<Response<PoolMsg>, ContractError>,
) -> bool {
    if asset_infos.len() != 2 {
        r == Err::<Response<PoolMsg>, ContractError>(ContractError::InvalidAssetInfo {}) && new == old
    } else if liquidity.assets@.len() != 2 {
        r == Err::<Response<PoolMsg>, ContractError>(ContractError::InvalidInitialLiquidity {}) && new == old
    } else {
        r matches Ok(resp) && {
            let (f, l) = split_funds(funds, old.config.fee_denom@, old.config.pair_creation_fee);
            let p = new.pending->Some_0;
            &&& new.config == old.config
            &&& new.pending is Some
            &&& p.sender == sender && p.pair_type == pair_type && p.asset_infos@ == asset_infos
            &&& p.init_params == init_params && p.liquidity == liquidity
            &&& p.funds@ == l && transfer_texts(p.cw20_messages@) == cw20_transfers(liquidity.assets@)
            &&& resp.messages@.len() == 1
            &&& (resp.messages@[0] matches PoolMsg::CreatePair { factory_addr, pair_type: t, asset_infos: a, init_params: i, funds: paid }
                && factory_addr == old.config.factory_addr && t == pair_type && a@ == asset_infos
                && (i is Some <==> init_params is Some) && (i is Some ==> i->Some_0@ == init_params->Some_0@)
                && paid@ == f)
            &&& resp.attrs() =~= seq![("action"@, "create_pair_and_provide_liquidity"@), ("sender"@, sender@)]
        }
    }
}

/// What an update of the settings does: the pool initializer goes from `old`
/// to `new` and answers `r`.
pub open spec fn update_outcome(
    old: PoolInitializer,
    new: PoolInitializer,
    sender: String,
    factory_addr: Option<Checked>,
    pair_creation_fee: Option<u128>,
    fee_denom: Option<String>,
    r: Result<Response<PoolMsg>, ContractError>,
) -> bool {
    if sender@ != old.config.owner@ {
        r == Err::<Response<PoolMsg>, ContractError>(ContractError::Unauthorized {}) && new == old
    } else if factory_addr is Some && factory_addr->Some_0 is Err {
        r == Err::<Response<PoolMsg>, ContractError>(ContractError::Std(factory_addr->Some_0->Err_0)) && new == old
    } else {
        r matches Ok(resp) && new.config == updated_config(old.config, factory_addr, pair_creation_fee, fee_denom)
            && new.pending == old.pending && resp.messages@.len() == 0 && resp.attrs() =~= seq![
                ("action"@, "update_config"@),
                ("factory_addr"@, new.config.factory_addr@),
                ("pair_creation_fee"@, dec(new.config.pair_creation_fee as nat)),
            ]
    }
}

/// What an emergency recovery does: the pool initializer goes from `old` to
/// `new` and answers `r`.
pub open spec fn recovery_outcome(
    old: PoolInitializer,
    new: PoolInitializer,
    sender: String,
    r: Result<Response<PoolMsg>, ContractError>,
) -> bool {
    if sender@ != old.config.owner@ {
        r == Err::<Response<PoolMsg>, ContractError>(ContractError::Unauthorized {}) && new == old
    } else if old.pending is None {
        r == Err::<Response<PoolMsg>, ContractError>(ContractError::NoPendingLiquidity {}) && new == old
    } else {
        r matches Ok(resp) && {
            let p = old.pending->Some_0;
            &&& new.pending is None && new.config == old.config
            &&& (if p.funds@.len() == 0 {
                resp.messages@.len() == 0
            } else {
                resp.messages@.len() == 1 && (resp.messages@[0] matches PoolMsg::BankSend { to_address, coins }
                    && to_address@ == p.sender@ && coins@ == p.funds@)
            })
            &&& resp.attrs() =~= seq![("action"@, "emergency_recovery"@), ("recipient"@, p.sender@)]
        }
    }
}

/// What answering a call does: the pool initializer goes from `old` to `new`
/// and answers `r`.
pub open spec fn execute_outcome(
    old: PoolInitializer,
    new: PoolInitializer,
    sender: String,
    funds: Seq<Coin>,
    msg: ExecuteMsg,
    r: Result<Response<PoolMsg>, ContractError>,
) -> bool {
    match msg {
        ExecuteMsg::CreatePairAndProvideLiquidity { pair_type, asset_infos, init_params, liquidity } => create_outcome(
            old, new, sender, funds, pair_type, asset_infos@, init_params, liquidity, r),
        ExecuteMsg::UpdateConfig { factory_addr, pair_creation_fee, fee_denom } => update_outcome(
            old, new, sender, factory_addr, pair_creation_fee, fee_denom, r),
        ExecuteMsg::EmergencyRecovery {} => recovery_outcome(old, new, sender, r),
    }
}

impl PoolInitializer {
    /// Sets up the pool initializer, owned by `sender`, with the factory at
    /// `factory_addr` (and what the chain's address check answered for it).
    pub fn instantiate(sender: &String, factory_addr: &String, factory_check: Checked, pair_creation_fee: u128, fee_denom: String) -> (r: Result<(PoolInitializer, Response<PoolMsg>), ContractError>)
        ensures
            factory_check is Err ==> r == Err::<(PoolInitializer, Response<PoolMsg>), ContractError>(ContractError::Std(factory_check->Err_0)),
            factory_check is Ok ==> (r matches Ok((p, resp)) && p.config == (Config {
                owner: *sender,
                factory_addr: factory_check->Ok_0,
                pair_creation_fee,
                fee_denom,
            }) && p.pending is None && resp.messages@.len() == 0 && resp.attrs() == seq![
                ("action"@, "instantiate"@),
                ("factory_addr"@, factory_addr@),
            ]),
    {
        let addr = match factory_check {
            Ok(a) => a,
            Err(e) => return Err(ContractError::Std(e)),
        };
        let config = Config { owner: sender.clone(), factory_addr: addr, pair_creation_fee, fee_denom };
        let mut resp = Response::new();
        resp.add_attribute("action", String::from_str("instantiate"));
        resp.add_attribute("factory_addr", factory_addr.clone());
        Ok((PoolInitializer { config, pending: None }, resp))
    }

    /// Asks the factory for a pair of the two assets, paying it the creation
    /// fee out of the coins sent, and keeps the rest of the coins and the CW20
    /// tokens to provide as liquidity once the pair exists.
    pub fn execute_create_pair_and_provide_liquidity(
        &mut self,
        sender: &String,
        funds: &Vec<Coin>,
        pair_type: PairType,
        asset_infos: Vec<AssetInfo>,
        init_params: Option<Vec<u8>>,
        liquidity: ProvideLiquidityParams,
    ) -> (r: Result<Response<PoolMsg>, ContractError>)
        ensures
            create_outcome(*old(self), *final(self), *sender, funds@, pair_type, asset_infos@, init_params, liquidity, r),
    {
        if asset_infos.len() != 2 {
            return Err(ContractError::InvalidAssetInfo {});
        }
        if liquidity.assets.len() != 2 {
            return Err(ContractError::InvalidInitialLiquidity {});
        }
        let (factory_funds, liquidity_funds) = split_funds_exec(funds, &self.config.fee_denom, self.config.pair_creation_fee);
        let cw20_messages = cw20_transfers_exec(&liquidity.assets);
        let msg = PoolMsg::CreatePair {
            factory_addr: self.config.factory_addr.clone(),
            pair_type: pair_type.copy(),
            asset_infos: copy_asset_infos(&asset_infos),
            init_params: copy_bytes(&init_params),
            funds: factory_funds,
        };
        self.pending = Some(PendingLiquidity {
            sender: sender.clone(),
            pair_type,
            asset_infos,
            init_params,
            liquidity,
            funds: liquidity_funds,
            cw20_messages,
        });
        let mut resp = Response::new();
        resp.add_message(msg);
        resp.add_attribute("action", String::from_str("create_pair_and_provide_liquidity"));
        resp.add_attribute("sender", sender.clone());
        Ok(resp)
    }

    /// Handles the replies: to the pair's creation (`pair_addr` is what the
    /// factory answered when asked for the new pair's address), it collects
    /// the CW20 tokens, lets the pair spend them and provides the liquidity;
    /// to the provision, it forgets the pending operation.
    pub fn reply(&mut self, id: u64, contract_addr: &String, pair_addr: Result<String, StdError>) -> (r: Result<Response<PoolMsg>, ContractError>)
        ensures
            id != CREATE_PAIR_REPLY_ID && id != PROVIDE_LIQUIDITY_REPLY_ID ==> r == Err::<Response<PoolMsg>, ContractError>(
                ContractError::InvalidReplyId {}) && *final(self) == *old(self),
            id == PROVIDE_LIQUIDITY_REPLY_ID ==> (r matches Ok(resp) && final(self).pending is None
                && final(self).config == old(self).config && resp.messages@.len() == 0
                && resp.attrs() == seq![("action"@, "liquidity_provided"@)]),
            id == CREATE_PAIR_REPLY_ID ==> *final(self) == *old(self),
            id == CREATE_PAIR_REPLY_ID && old(self).pending is None ==> (r matches Err(ContractError::Std(e))
                && e.text@ == not_found_text(pending_kind())),
            id == CREATE_PAIR_REPLY_ID && old(self).pending is Some && pair_addr is Err ==> r == Err::<Response<PoolMsg>, ContractError>(
                ContractError::FailedToQueryFactory {}),
            id == CREATE_PAIR_REPLY_ID && old(self).pending is Some && pair_addr is Ok ==> (r matches Ok(resp)
                && follow_up_ok(resp.messages@, old(self).pending->Some_0, contract_addr@, pair_addr->Ok_0@)
                && resp.attrs() == seq![("action"@, "pair_created"@), ("pair_addr"@, pair_addr->Ok_0@)]),
    {
        if id == PROVIDE_LIQUIDITY_REPLY_ID {
            self.pending = None;
            let mut resp = Response::new();
            resp.add_attribute("action", String::from_str("liquidity_provided"));
            return Ok(resp);
        }
        if id != CREATE_PAIR_REPLY_ID {
            return Err(ContractError::InvalidReplyId {});
        }
        let p = match &self.pending {
            Some(p) => p,
            None => return Err(ContractError::Std(StdError::not_found("oroswap_pool_initializer::state::PendingLiquidity"))),
        };
        let pair_addr = match pair_addr {
            Ok(a) => a,
            Err(_) => return Err(ContractError::FailedToQueryFactory {}),
        };
        let ghost t = transfer_texts(p.cw20_messages@);
        let n = p.cw20_messages.len();
        let mut resp: Response<PoolMsg> = Response::new();
        let mut i: usize = 0;
        while i < n
            invariant
                i <= n,
                n == p.cw20_messages@.len(),
                t == transfer_texts(p.cw20_messages@),
                resp.messages@.len() == i,
                resp.attrs() == Seq::<(Seq<char>, Seq<char>)>::empty(),
                forall|k: int| 0 <= k < i ==> (#[trigger] resp.messages@[k] matches PoolMsg::Cw20TransferFrom { token, owner, recipient, amount }
                    && token@ == t[k].0 && owner@ == p.sender@ && recipient@ == contract_addr@ && amount == t[k].1),
            decreases n - i,
        {
            resp.add_message(PoolMsg::Cw20TransferFrom {
                token: p.cw20_messages[i].0.clone(),
                owner: p.sender.clone(),
                recipient: contract_addr.clone(),
                amount: p.cw20_messages[i].1,
            });
            i = i + 1;
        }
        let mut j: usize = 0;
        while j < n
            invariant
                j <= n,
                n == p.cw20_messages@.len(),
                t == transfer_texts(p.cw20_messages@),
                resp.messages@.len() == n + j,
                resp.attrs() == Seq::<(Seq<char>, Seq<char>)>::empty(),
                forall|k: int| 0 <= k < n ==> (#[trigger] resp.messages@[k] matches PoolMsg::Cw20TransferFrom { token, owner, recipient, amount }
                    && token@ == t[k].0 && owner@ == p.sender@ && recipient@ == contract_addr@ && amount == t[k].1),
                forall|k: int| 0 <= k < j ==> (#[trigger] resp.messages@[n + k] matches PoolMsg::Cw20IncreaseAllowance { token, spender, amount }
                    && token@ == t[k].0 && spender@ == pair_addr@ && amount == t[k].1),
            decreases n - j,
        {
            let ghost before = resp.messages@;
            resp.add_message(PoolMsg::Cw20IncreaseAllowance {
                token: p.cw20_messages[j].0.clone(),
                spender: pair_addr.clone(),
                amount: p.cw20_messages[j].1,
            });
            proof {
                assert forall|k: int| 0 <= k < j + 1 implies (#[trigger] resp.messages@[n + k] matches PoolMsg::Cw20IncreaseAllowance { token, spender, amount }
                    && token@ == t[k].0 && spender@ == pair_addr@ && amount == t[k].1) by {
                    if k < j {
                        assert(resp.messages@[n + k] == before[n + k]);
                    }
                };
            }
            j = j + 1;
        }
        let receiver = match &p.liquidity.receiver {
            Some(r) => r.clone(),
            None => p.sender.clone(),
        };
        resp.add_message(PoolMsg::ProvideLiquidity {
            pair_addr: pair_addr.clone(),
            assets: copy_assets(&p.liquidity.assets),
            slippage_tolerance: p.liquidity.slippage_tolerance,
            receiver: Some(receiver),
            min_lp_to_receive: p.liquidity.min_lp_to_receive,
            funds: copy_coins(&p.funds),
        });
        resp.add_attribute("action", String::from_str("pair_created"));
        resp.add_attribute("pair_addr", pair_addr);
        Ok(resp)
    }

    /// Changes the settings: the factory (with what the chain's address check
    /// answered for it), the creation fee and its denomination, each when
    /// given. Only the owner may do so.
    pub fn execute_update_config(
        &mut self,
        sender: &String,
        factory_addr: Option<Checked>,
        pair_creation_fee: Option<u128>,
        fee_denom: Option<String>,
    ) -> (r: Result<Response<PoolMsg>, ContractError>)
        ensures
            update_outcome(*old(self), *final(self), *sender, factory_addr, pair_creation_fee, fee_denom, r),
    {
        if *sender != self.config.owner {
            return Err(ContractError::Unauthorized {});
        }
        let new_factory = match factory_addr {
            Some(Ok(a)) => Some(a),
            Some(Err(e)) => return Err(ContractError::Std(e)),
            None => None,
        };
        if let Some(a) = new_factory {
            self.config.factory_addr = a;
        }
        if let Some(fee) = pair_creation_fee {
            self.config.pair_creation_fee = fee;
        }
        if let Some(d) = fee_denom {
            self.config.fee_denom = d;
        }
        let mut resp = Response::new();
        resp.add_attribute("action", String::from_str("update_config"));
        resp.add_attribute("factory_addr", self.config.factory_addr.clone());
        resp.add_attribute("pair_creation_fee", decimal(self.config.pair_creation_fee));
        Ok(resp)
    }

    /// Gives the coins kept for the pending operation back to its sender, and
    /// forgets the operation. Only the owner may do so.
    pub fn execute_emergency_recovery(&mut self, sender: &String) -> (r: Result<Response<PoolMsg>, ContractError>)
        ensures
            recovery_outcome(*old(self), *final(self), *sender, r),
    {
        if *sender != self.config.owner {
            return Err(ContractError::Unauthorized {});
        }
        let p = match self.pending.take() {
            Some(p) => p,
            None => return Err(ContractError::NoPendingLiquidity {}),
        };
        let mut resp = Response::new();
        if p.funds.len() > 0 {
            resp.add_message(PoolMsg::BankSend { to_address: p.sender.clone(), coins: p.funds });
        }
        resp.add_attribute("action", String::from_str("emergency_recovery"));
        resp.add_attribute("recipient", p.sender);
        Ok(resp)
    }

    /// Answers a call.
    pub fn execute(&mut self, sender: &String, funds: &Vec<Coin>, msg: ExecuteMsg) -> (r: Result<Response<PoolMsg>, ContractError>)
        ensures
            execute_outcome(*old(self), *final(self), *sender, funds@, msg, r),
    {
        match msg {
            ExecuteMsg::CreatePairAndProvideLiquidity { pair_type, asset_infos, init_params, liquidity } => {
                self.execute_create_pair_and_provide_liquidity(sender, funds, pair_type, asset_infos, init_params, liquidity)
            },
            ExecuteMsg::UpdateConfig { factory_addr, pair_creation_fee, fee_denom } => {
                self.execute_update_config(sender, factory_addr, pair_creation_fee, fee_denom)
            },
            ExecuteMsg::EmergencyRecovery {} => self.execute_emergency_recovery(sender),
        }
    }

    /// The stored settings.
    pub fn query_config(&self) -> (r: ConfigResponse)
        ensures
            r.owner == self.config.owner,
            r.factory_addr == self.config.factory_addr,
            r.pair_creation_fee == self.config.pair_creation_fee,
            r.fee_denom == self.config.fee_denom,
    {
        ConfigResponse {
            owner: self.config.owner.clone(),
            factory_addr: self.config.factory_addr.clone(),
            pair_creation_fee: self.config.pair_creation_fee,
            fee_denom: self.config.fee_denom.clone(),
        }
    }

    /// Answers a query.
    pub fn query(&self, msg: QueryMsg) -> (r: ConfigResponse)
        ensures
            msg is Config ==> r.owner == self.config.owner && r.factory_addr == self.config.factory_addr
                && r.pair_creation_fee == self.config.pair_creation_fee && r.fee_denom == self.config.fee_denom,
    {
        match msg {
            QueryMsg::Config {} => self.query_config(),
        }
    }
}

} // verus!
