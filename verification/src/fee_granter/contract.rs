//! The fee granter's operations: granting and revoking fee allowances,
//! transferring coins, managing admins and transferring ownership.
use vstd::prelude::*;
use vstd::string::*;
use crate::asset::{Coin, denom_error, string_bytes, utf8, validate_native_denom};
use crate::error::{Checked, StdError, generic_text};
use crate::fee_granter::admins::{MAX_ADMINS, admins_update, lemma_admins_update, names,
    update_admins_with_validation};
use crate::fee_granter::types::{Config, ContractError, ExecuteMsg, FeeGranter, GranterMsg, GranterState, may_manage};
use crate::ordered::ByteMap;
use crate::outside::{PaymentError, encode_grant_allowance, encode_revoke_allowance, grant_allowance_bytes,
    grant_allowance_type_url, must_pay, revoke_allowance_bytes, revoke_allowance_type_url};
use crate::ownership::{OwnershipProposal, MAX_PROPOSAL_TTL, claim_error, claim_ownership,
    drop_ownership_proposal, propose_error, propose_new_owner};
use crate::response::Response;
use crate::text::{dec, decimal, join, join_strings};

verus! {

/// The contract's name, as stored with its version.
pub open spec fn contract_name() -> Seq<char> {
    "oroswap-fee-granter"@
}

/// No coin was sent, or one coin of amount zero.
pub open spec fn no_funds(funds: Seq<Coin>) -> bool {
    funds.len() == 0 || (funds.len() == 1 && funds[0].amount == 0)
}

/// Exactly one coin was sent, of a nonzero amount of `denom`.
pub open spec fn pays_in(funds: Seq<Coin>, denom: Seq<char>) -> bool {
    funds.len() == 1 && funds[0].amount != 0 && funds[0].denom@ == denom
}

/// The checks of a grant that come before the balance: the sender may manage
/// grants, and unless the payment check is bypassed, exactly `amount` of the
/// gas denomination was sent.
pub open spec fn grant_paid(s: GranterState, sender: Seq<char>, funds: Seq<Coin>, amount: u128, bypass: bool) -> bool {
    &&& may_manage(s, sender)
    &&& (bypass || (pays_in(funds, s.gas_denom) && funds[0].amount == amount))
}

/// The text of the error for a second grant to the same grantee.
pub open spec fn grant_exists_text(grantee: Seq<char>) -> Seq<char> {
    generic_text("Grant already exists for "@ + grantee)
}

/// The fee granter after a grant of `amount` to `grantee`.
pub open spec fn granted_state(s: GranterState, grantee: Seq<char>, amount: u128) -> GranterState {
    GranterState { grants: s.grants.insert(utf8(grantee), amount), ..s }
}

/// The fee granter after the grant to `grantee` is revoked.
pub open spec fn revoked_state(s: GranterState, grantee: Seq<char>) -> GranterState {
    GranterState { grants: s.grants.remove(utf8(grantee)), ..s }
}

/// The attributes that an update of the admins records.
pub open spec fn update_admins_attrs(add: Seq<(String, Checked)>, remove: Seq<(String, Checked)>) -> Seq<(Seq<char>, Seq<char>)> {
    let first = seq![("action"@, "update_admins"@)];
    let with_add = if add.len() > 0 {
        first.push(("add_admins"@, join(raw_names(add), ","@)))
    } else {
        first
    };
    if remove.len() > 0 {
        with_add.push(("remove_admins"@, join(raw_names(remove), ","@)))
    } else {
        with_add
    }
}

/// The addresses of the list as they were given.
pub open spec fn raw_names(addrs: Seq<(String, Checked)>) -> Seq<Seq<char>> {
    addrs.map_values(|p: (String, Checked)| p.0@)
}

/// The addresses of the list as they were given, as a vector.
fn raw_list(addrs: &Vec<(String, Checked)>) -> (r: Vec<String>)
    ensures
        r@.map_values(|p: String| p@) == raw_names(addrs@),
{
    let mut r: Vec<String> = Vec::new();
    let mut i: usize = 0;
    while i < addrs.len()
        invariant
            i <= addrs@.len(),
            r@.len() == i,
            forall|k: int| 0 <= k < i ==> #[trigger] r@[k]@ == addrs@[k].0@,
        decreases addrs.len() - i,
    {
        r.push(addrs[i].0.clone());
        i = i + 1;
    }
    assert(r@.map_values(|p: String| p@) =~= raw_names(addrs@));
    r
}

/// Whether `a` is the owner or an admin.
fn is_manager(config: &Config, a: &String) -> (r: bool)
    ensures
        r == (a@ == config.owner@ || names(config.admins@).contains(a@)),
{
    if *a == config.owner {
        return true;
    }
    let mut i: usize = 0;
    while i < config.admins.len()
        invariant
            i <= config.admins@.len(),
            forall|j: int| 0 <= j < i ==> config.admins@[j]@ != a@,
        decreases config.admins.len() - i,
    {
        if config.admins[i] == *a {
            assert(names(config.admins@)[i as int] == a@);
            return true;
        }
        i = i + 1;
    }
    proof {
        if names(config.admins@).contains(a@) {
            let j = choose|j: int| 0 <= j < names(config.admins@).len() && names(config.admins@)[j] == a@;
            assert(config.admins@[j]@ == a@);
        }
    }
    false
}

/// What a grant does: the fee granter goes from `old` to `new` and answers `r`.
pub open spec fn grant_outcome(old: FeeGranter, new: FeeGranter, sender: String, funds: Vec<Coin>, contract_addr: String, grantee_contract: String, amount: u128, bypass_amount_check: bool, contract_balance: Result<u128, StdError>, r: Result<Response<GranterMsg>, ContractError>) -> bool {
    &&& (r is Err ==> new == old)
    &&& (!may_manage(old.state(), sender@) ==> r == Err::<Response<GranterMsg>, ContractError>(ContractError::Unauthorized {}))
    &&& (may_manage(old.state(), sender@) && !bypass_amount_check && no_funds(funds@)
            ==> r == Err::<Response<GranterMsg>, ContractError>(ContractError::Payment(PaymentError::NoFunds)))
    &&& (may_manage(old.state(), sender@) && !bypass_amount_check && funds@.len() >= 2
            ==> r == Err::<Response<GranterMsg>, ContractError>(ContractError::Payment(PaymentError::MultipleDenoms)))
    &&& (may_manage(old.state(), sender@) && !bypass_amount_check && funds@.len() == 1 && funds@[0].amount != 0
            && funds@[0].denom@ != old.config.gas_denom@ ==> (r matches Err(ContractError::Payment(PaymentError::MissingDenom(d)))
            && d@ == old.config.gas_denom@))
    &&& (may_manage(old.state(), sender@) && !bypass_amount_check && pays_in(funds@, old.config.gas_denom@)
            && funds@[0].amount != amount ==> r == Err::<Response<GranterMsg>, ContractError>(
            ContractError::InvalidAmount { expected: amount, actual: funds@[0].amount }))
    &&& (grant_paid(old.state(), sender@, funds@, amount, bypass_amount_check) && contract_balance is Err
            ==> r == Err::<Response<GranterMsg>, ContractError>(ContractError::Std(contract_balance->Err_0)))
    &&& (grant_paid(old.state(), sender@, funds@, amount, bypass_amount_check) && contract_balance is Ok
            && contract_balance->Ok_0 < amount ==> r == Err::<Response<GranterMsg>, ContractError>(
            ContractError::InsufficientBalance { requested: amount, available: contract_balance->Ok_0 }))
    &&& (grant_paid(old.state(), sender@, funds@, amount, bypass_amount_check) && contract_balance is Ok
            && contract_balance->Ok_0 >= amount && old.state().grants.contains_key(utf8(grantee_contract@))
            ==> (r matches Err(ContractError::Std(e)) && e.text@ == grant_exists_text(grantee_contract@)))
    &&& (grant_paid(old.state(), sender@, funds@, amount, bypass_amount_check) && contract_balance is Ok
            && contract_balance->Ok_0 >= amount && !old.state().grants.contains_key(utf8(grantee_contract@))
            ==> (r matches Ok(resp) && {
                &&& new.state() =~= granted_state(old.state(), grantee_contract@, amount)
                &&& resp.messages@.len() == 1
                &&& (resp.messages@[0] matches GranterMsg::Stargate { type_url, value }
                    && type_url@ == "/cosmos.feegrant.v1beta1.MsgGrantAllowance"@
                    && value@ == grant_allowance_bytes(contract_addr@, grantee_contract@, old.config.gas_denom@,
                    dec(amount as nat)))
                &&& resp.attrs() =~= seq![
                    ("action"@, "grant"@),
                    ("grantee_contract"@, grantee_contract@),
                    ("amount"@, dec(amount as nat)),
                ]
            }))
}

/// What a revoke does: the fee granter goes from `old` to `new` and answers `r`.
pub open spec fn revoke_outcome(old: FeeGranter, new: FeeGranter, sender: String, contract_addr: String, grantee_contract: String, r: Result<Response<GranterMsg>, ContractError>) -> bool {
    &&& (!may_manage(old.state(), sender@) ==> r == Err::<Response<GranterMsg>, ContractError>(ContractError::Unauthorized {})
            && new == old)
    &&& (may_manage(old.state(), sender@) ==> (r matches Ok(resp) && {
            &&& new.state() =~= revoked_state(old.state(), grantee_contract@)
            &&& resp.messages@.len() == 1
            &&& (resp.messages@[0] matches GranterMsg::Stargate { type_url, value }
                && type_url@ == "/cosmos.feegrant.v1beta1.MsgRevokeAllowance"@
                && value@ == revoke_allowance_bytes(contract_addr@, grantee_contract@))
            &&& resp.attrs() =~= seq![("action"@, "revoke"@), ("grantee_contract"@, grantee_contract@)]
        }))
}

/// What a coin transfer from `g` answers: `r`.
pub open spec fn transfer_outcome(g: FeeGranter, sender: String, amount: u128, receiver: Option<String>, r: Result<Response<GranterMsg>, ContractError>) -> bool {
    &&& (amount == 0 ==> (r matches Err(ContractError::Std(e)) && e.text@ == generic_text("Can't send 0 amount"@)))
    &&& (amount != 0 && !may_manage(g.state(), sender@) ==> r == Err::<Response<GranterMsg>, ContractError>(
            ContractError::Unauthorized {}))
    &&& (amount != 0 && may_manage(g.state(), sender@) ==> (r matches Ok(resp) && {
            &&& resp.messages@.len() == 1
            &&& (resp.messages@[0] matches GranterMsg::BankSend { to_address, amount: coins }
                && to_address@ == (if receiver is Some { receiver->Some_0@ } else { sender@ })
                && coins@.len() == 1 && coins@[0].denom@ == g.config.gas_denom@ && coins@[0].amount == amount)
            &&& resp.attrs() =~= seq![("action"@, "transfer_coins"@), ("amount"@, dec(amount as nat))]
        }))
}

/// What an update of the admins does: the fee granter goes from `old` to `new` and answers `r`.
pub open spec fn update_admins_outcome(old: FeeGranter, new: FeeGranter, sender: String, add: Vec<(String, Checked)>, remove: Vec<(String, Checked)>, r: Result<Response<GranterMsg>, ContractError>) -> bool {
    &&& (r is Err ==> new == old)
    &&& (sender@ != old.config.owner@ ==> r == Err::<Response<GranterMsg>, ContractError>(ContractError::Unauthorized {}))
    &&& (sender@ == old.config.owner@ ==> match admins_update(old.state().admins, add@, remove@) {
            Err(m) => r matches Err(ContractError::Std(e)) && e.text@ == m,
            Ok(a) => r matches Ok(resp) && new.state() =~= (GranterState { admins: a, ..old.state() })
                && resp.messages@.len() == 0 && resp.attrs() =~= update_admins_attrs(add@, remove@)
        })
}

/// What an ownership proposal does: the fee granter goes from `old` to `new` and answers `r`.
pub open spec fn propose_outcome(old: FeeGranter, new: FeeGranter, sender: String, new_owner: Checked, expires_in: u64, now: u64, r: Result<Response<GranterMsg>, ContractError>) -> bool {
    &&& (match propose_error(sender@, old.config.owner@, new_owner, expires_in) {
            Some(msg) => r matches Err(ContractError::Std(e)) && e.text@ == msg && new == old,
            None => r matches Ok(resp) && new.state() =~= (GranterState {
                proposal: Some(OwnershipProposal { owner: new_owner->Ok_0, ttl: (now + expires_in) as u64 }),
                ..old.state()
            }) && resp.messages@.len() == 0 && resp.attrs() =~= seq![
                ("action"@, "propose_new_owner"@),
                ("new_owner"@, new_owner->Ok_0@),
            ]
        })
}

/// What withdrawing the ownership proposal does: the fee granter goes from `old` to `new` and answers `r`.
pub open spec fn drop_outcome(old: FeeGranter, new: FeeGranter, sender: String, r: Result<Response<GranterMsg>, ContractError>) -> bool {
    &&& (sender@ != old.config.owner@ ==> (r matches Err(ContractError::Std(e))
            && e.text@ == generic_text("Unauthorized"@) && new == old))
    &&& (sender@ == old.config.owner@ ==> (r matches Ok(resp) && new.state() =~= (GranterState {
            proposal: None,
            ..old.state()
        }) && resp.messages@.len() == 0 && resp.attrs() =~= seq![("action"@, "drop_ownership_proposal"@)]))
}

/// What claiming ownership does: the fee granter goes from `old` to `new` and answers `r`.
pub open spec fn claim_outcome(old: FeeGranter, new: FeeGranter, sender: String, now: u64, r: Result<Response<GranterMsg>, ContractError>) -> bool {
    &&& (match claim_error(old.ownership_proposal, sender@, now) {
            Some(msg) => r matches Err(ContractError::Std(e)) && e.text@ == msg && new == old,
            None => r matches Ok(resp) && new.state() =~= (GranterState {
                owner: old.ownership_proposal->Some_0.owner@,
                proposal: None,
                ..old.state()
            }) && resp.messages@.len() == 0 && resp.attrs() =~= seq![
                ("action"@, "claim_ownership"@),
                ("new_owner"@, old.ownership_proposal->Some_0.owner@),
            ]
        })
}

/// What answering a call does: the fee granter goes from `old` to `new` and
/// answers `r`.
pub open spec fn execute_outcome(
    old: FeeGranter,
    new: FeeGranter,
    sender: String,
    funds: Vec<Coin>,
    contract_addr: String,
    now: u64,
    contract_balance: Result<u128, StdError>,
    msg: ExecuteMsg,
    r: Result<Response<GranterMsg>, ContractError>,
) -> bool {
    match msg {
        ExecuteMsg::Grant { grantee_contract, amount, bypass_amount_check } => match grantee_contract {
            Err(e) => r == Err::<Response<GranterMsg>, ContractError>(ContractError::Std(e)) && new == old,
            Ok(g) => grant_outcome(old, new, sender, funds, contract_addr, g, amount,
                bypass_amount_check, contract_balance, r),
        },
        ExecuteMsg::Revoke { grantee_contract } => match grantee_contract {
            Err(e) => r == Err::<Response<GranterMsg>, ContractError>(ContractError::Std(e)) && new == old,
            Ok(g) => revoke_outcome(old, new, sender, contract_addr, g, r),
        },
        ExecuteMsg::TransferCoins { amount, receiver } => transfer_outcome(old, sender, amount, receiver, r)
            && new == old,
        ExecuteMsg::UpdateAdmins { add, remove } => update_admins_outcome(old, new, sender, add, remove, r),
        ExecuteMsg::ProposeNewOwner { owner, expires_in } => propose_outcome(old, new, sender, owner,
            expires_in, now, r),
        ExecuteMsg::DropOwnershipProposal {} => drop_outcome(old, new, sender, r),
        ExecuteMsg::ClaimOwnership {} => claim_outcome(old, new, sender, now, r),
    }
}

impl FeeGranter {
    /// Sets up the fee granter: checks the gas denomination, then the owner's
    /// address, then adds the admins (each with what the chain's address check
    /// answered for it).
    pub fn instantiate(owner: Checked, admins: &Vec<(String, Checked)>, gas_denom: String) -> (r: Result<(FeeGranter, Response<GranterMsg>), StdError>)
        ensures
            denom_error(gas_denom@) is Some ==> (r matches Err(e) && e.text@ == generic_text(denom_error(gas_denom@)->Some_0)),
            denom_error(gas_denom@) is None && owner is Err ==> r == Err::<(FeeGranter, Response<GranterMsg>), StdError>(owner->Err_0),
            denom_error(gas_denom@) is None && owner is Ok ==> match admins_update(Seq::empty(), admins@, Seq::empty()) {
                Err(m) => r matches Err(e) && e.text@ == m,
                Ok(a) => r matches Ok((g, resp)) && g.wf() && g.state() == (GranterState {
                    owner: owner->Ok_0@,
                    admins: a,
                    gas_denom: gas_denom@,
                    grants: Map::empty(),
                    proposal: None,
                }) && resp.messages@.len() == 0 && resp.attrs() == seq![
                    ("action"@, "instantiate"@),
                    ("contract"@, contract_name()),
                    ("gas_denom"@, gas_denom@),
                ],
            },
    {
        if let Err(e) = validate_native_denom(&gas_denom) {
            return Err(e);
        }
        let owner = match owner {
            Ok(a) => a,
            Err(e) => return Err(e),
        };
        let none: Vec<(String, Checked)> = Vec::new();
        assert(none@ =~= Seq::<(String, Checked)>::empty());
        let empty: Vec<String> = Vec::new();
        assert(names(empty@) =~= Seq::<Seq<char>>::empty());
        let list = match update_admins_with_validation(empty, admins, &none) {
            Ok(v) => v,
            Err(e) => return Err(e),
        };
        proof { lemma_admins_update(Seq::empty(), admins@, Seq::empty()); }
        let mut resp = Response::new();
        resp.add_attribute("action", String::from_str("instantiate"));
        resp.add_attribute("contract", String::from_str("oroswap-fee-granter"));
        resp.add_attribute("gas_denom", gas_denom.clone());
        let g = FeeGranter {
            config: Config { owner, admins: list, gas_denom },
            grants: ByteMap::new(),
            ownership_proposal: None,
        };
        Ok((g, resp))
    }

    /// Grants `grantee_contract` an allowance of `amount` of the gas
    /// denomination, to be spent on its fees. The owner or an admin may do so;
    /// unless `bypass_amount_check` is set, exactly `amount` must be sent with
    /// the call. `contract_balance` is what the bank answered for this
    /// contract's balance in the gas denomination, which must cover `amount`;
    /// a grantee holds at most one grant.
    pub fn grant(
        &mut self,
        sender: &String,
        funds: &Vec<Coin>,
        contract_addr: &String,
        grantee_contract: &String,
        amount: u128,
        bypass_amount_check: bool,
        contract_balance: Result<u128, StdError>,
    ) -> (r: Result<Response<GranterMsg>, ContractError>)
        requires
            old(self).wf(),
        ensures
            final(self).wf(),
            grant_outcome(*old(self), *final(self), *sender, *funds, *contract_addr, *grantee_contract, amount, bypass_amount_check, contract_balance, r),
    {
        if !is_manager(&self.config, sender) {
            return Err(ContractError::Unauthorized {});
        }
        if !bypass_amount_check {
            match must_pay(funds, &self.config.gas_denom) {
                Ok(sent) => {
                    if sent != amount {
                        return Err(ContractError::InvalidAmount { expected: amount, actual: sent });
                    }
                },
                Err(p) => return Err(ContractError::Payment(p)),
            }
        }
        let balance = match contract_balance {
            Ok(b) => b,
            Err(e) => return Err(ContractError::Std(e)),
        };
        if balance < amount {
            return Err(ContractError::InsufficientBalance { requested: amount, available: balance });
        }
        let key = string_bytes(grantee_contract);
        if self.grants.contains(&key) {
            let mut msg = String::from_str("Grant already exists for ");
            msg.append(grantee_contract.as_str());
            proof { reveal_strlit("Grant already exists for "); }
            return Err(ContractError::Std(StdError::generic_err(msg)));
        }
        self.grants.insert(key, amount);
        let amount_text = decimal(amount);
        let value = encode_grant_allowance(contract_addr, grantee_contract, &self.config.gas_denom, &amount_text);
        let mut resp = Response::new();
        resp.add_message(GranterMsg::Stargate { type_url: grant_allowance_type_url(), value });
        resp.add_attribute("action", String::from_str("grant"));
        resp.add_attribute("grantee_contract", grantee_contract.clone());
        resp.add_attribute("amount", amount_text);
        Ok(resp)
    }

    /// Revokes the allowance of `grantee_contract`, granted or not. The owner
    /// or an admin may do so.
    pub fn revoke(&mut self, sender: &String, contract_addr: &String, grantee_contract: &String) -> (r: Result<Response<GranterMsg>, ContractError>)
        requires
            old(self).wf(),
        ensures
            final(self).wf(),
            revoke_outcome(*old(self), *final(self), *sender, *contract_addr, *grantee_contract, r),
    {
        if !is_manager(&self.config, sender) {
            return Err(ContractError::Unauthorized {});
        }
        let key = string_bytes(grantee_contract);
        self.grants.remove(&key);
        let value = encode_revoke_allowance(contract_addr, grantee_contract);
        let mut resp = Response::new();
        resp.add_message(GranterMsg::Stargate { type_url: revoke_allowance_type_url(), value });
        resp.add_attribute("action", String::from_str("revoke"));
        resp.add_attribute("grantee_contract", grantee_contract.clone());
        Ok(resp)
    }

    /// Sends `amount` of the gas denomination to `receiver`, or to the sender
    /// when none is given. The owner or an admin may do so; the amount must
    /// not be zero.
    pub fn transfer_coins(&self, sender: &String, amount: u128, receiver: Option<String>) -> (r: Result<Response<GranterMsg>, ContractError>)
        ensures
            transfer_outcome(*self, *sender, amount, receiver, r),
    {
        if amount == 0 {
            return Err(ContractError::Std(StdError::generic_err(String::from_str("Can't send 0 amount"))));
        }
        if !is_manager(&self.config, sender) {
            return Err(ContractError::Unauthorized {});
        }
        let to_address = match receiver {
            Some(a) => a,
            None => sender.clone(),
        };
        let coins = vec![Coin { denom: self.config.gas_denom.clone(), amount }];
        let mut resp = Response::new();
        resp.add_message(GranterMsg::BankSend { to_address, amount: coins });
        resp.add_attribute("action", String::from_str("transfer_coins"));
        resp.add_attribute("amount", decimal(amount));
        Ok(resp)
    }

    /// Adds and removes admins (each address with what the chain's address
    /// check answered for it). Only the owner may do so.
    pub fn update_admins(&mut self, sender: &String, add: &Vec<(String, Checked)>, remove: &Vec<(String, Checked)>) -> (r: Result<Response<GranterMsg>, ContractError>)
        requires
            old(self).wf(),
        ensures
            final(self).wf(),
            update_admins_outcome(*old(self), *final(self), *sender, *add, *remove, r),
    {
        if *sender != self.config.owner {
            return Err(ContractError::Unauthorized {});
        }
        let current = self.config.admins.clone();
        assert(current@ == self.config.admins@);
        let list = match update_admins_with_validation(current, add, remove) {
            Ok(v) => v,
            Err(e) => return Err(ContractError::Std(e)),
        };
        proof { lemma_admins_update(names(old(self).config.admins@), add@, remove@); }
        self.config.admins = list;
        let mut resp = Response::new();
        resp.add_attribute("action", String::from_str("update_admins"));
        if add.len() > 0 {
            resp.add_attribute("add_admins", join_strings(&raw_list(add), ","));
        }
        if remove.len() > 0 {
            resp.add_attribute("remove_admins", join_strings(&raw_list(remove), ","));
        }
        Ok(resp)
    }

    /// The owner proposes `new_owner` as the next owner, open until
    /// `now + expires_in` (at most two weeks from now).
    pub fn propose_new_owner(&mut self, sender: &String, new_owner: Checked, expires_in: u64, now: u64) -> (r: Result<Response<GranterMsg>, ContractError>)
        requires
            old(self).wf(),
            expires_in <= MAX_PROPOSAL_TTL ==> now + expires_in <= u64::MAX,
        ensures
            final(self).wf(),
            propose_outcome(*old(self), *final(self), *sender, new_owner, expires_in, now, r),
    {
        let owner = self.config.owner.clone();
        match propose_new_owner(&mut self.ownership_proposal, sender, &owner, new_owner, expires_in, now) {
            Ok(resp) => Ok(resp),
            Err(e) => Err(ContractError::Std(e)),
        }
    }

    /// The owner withdraws the pending ownership proposal.
    pub fn drop_ownership_proposal(&mut self, sender: &String) -> (r: Result<Response<GranterMsg>, ContractError>)
        requires
            old(self).wf(),
        ensures
            final(self).wf(),
            drop_outcome(*old(self), *final(self), *sender, r),
    {
        let owner = self.config.owner.clone();
        match drop_ownership_proposal(&mut self.ownership_proposal, sender, &owner) {
            Ok(resp) => Ok(resp),
            Err(e) => Err(ContractError::Std(e)),
        }
    }

    /// The proposed owner claims ownership at time `now`, before the proposal
    /// expires, and becomes the owner.
    pub fn claim_ownership(&mut self, sender: &String, now: u64) -> (r: Result<Response<GranterMsg>, ContractError>)
        requires
            old(self).wf(),
        ensures
            final(self).wf(),
            claim_outcome(*old(self), *final(self), *sender, now, r),
    {
        match claim_ownership(&mut self.ownership_proposal, sender, now) {
            Ok((new_owner, resp)) => {
                self.config.owner = new_owner;
                Ok(resp)
            },
            Err(e) => Err(ContractError::Std(e)),
        }
    }

    /// Answers a call from `sender`, who sent `funds`, at time `now`;
    /// `contract_balance` is what the bank answered for this contract's balance
    /// in the gas denomination, which only grants read.
    pub fn execute(
        &mut self,
        sender: &String,
        funds: &Vec<Coin>,
        contract_addr: &String,
        now: u64,
        contract_balance: Result<u128, StdError>,
        msg: ExecuteMsg,
    ) -> (r: Result<Response<GranterMsg>, ContractError>)
        requires
            old(self).wf(),
            msg matches ExecuteMsg::ProposeNewOwner { expires_in, .. } ==> (expires_in <= MAX_PROPOSAL_TTL
                ==> now + expires_in <= u64::MAX),
        ensures
            final(self).wf(),
            execute_outcome(*old(self), *final(self), *sender, *funds, *contract_addr, now, contract_balance, msg, r),
    {
        match msg {
            ExecuteMsg::Grant { grantee_contract, amount, bypass_amount_check } => match grantee_contract {
                Err(e) => Err(ContractError::Std(e)),
                Ok(g) => self.grant(sender, funds, contract_addr, &g, amount, bypass_amount_check, contract_balance),
            },
            ExecuteMsg::Revoke { grantee_contract } => match grantee_contract {
                Err(e) => Err(ContractError::Std(e)),
                Ok(g) => self.revoke(sender, contract_addr, &g),
            },
            ExecuteMsg::TransferCoins { amount, receiver } => self.transfer_coins(sender, amount, receiver),
            ExecuteMsg::UpdateAdmins { add, remove } => self.update_admins(sender, &add, &remove),
            ExecuteMsg::ProposeNewOwner { owner, expires_in } => self.propose_new_owner(sender, owner, expires_in, now),
            ExecuteMsg::DropOwnershipProposal {} => self.drop_ownership_proposal(sender),
            ExecuteMsg::ClaimOwnership {} => self.claim_ownership(sender, now),
        }
    }

    /// The stored settings.
    pub fn query_config(&self) -> (r: &Config)
        ensures
            *r == self.config,
    {
        &self.config
    }

    /// The amount granted to `grantee_contract`, or zero when it holds no grant.
    pub fn query_grant(&self, grantee_contract: &String) -> (r: u128)
        requires
            self.wf(),
        ensures
            self.state().grants.contains_key(utf8(grantee_contract@)) ==> r == self.state().grants[utf8(grantee_contract@)],
            !self.state().grants.contains_key(utf8(grantee_contract@)) ==> r == 0,
    {
        match self.grants.get(&string_bytes(grantee_contract)) {
            Some(a) => *a,
            None => 0,
        }
    }
}

} // verus!
