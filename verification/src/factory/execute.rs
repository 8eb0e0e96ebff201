//! The factory's answer to a call: each call goes to its operation.
use vstd::prelude::*;
use crate::asset::Coin;
use crate::factory::admin::{claim_outcome, drop_outcome, propose_outcome};
use crate::factory::pairs::{create_pair_outcome, deregister_outcome};
use crate::factory::pausing::{add_authorities_outcome, pause_batch_outcome, pause_pair_outcome,
    remove_authorities_outcome, unpause_batch_outcome, unpause_pair_outcome};
use crate::factory::settings::{tracker_config_outcome, update_config_outcome, update_pair_config_outcome};
use crate::factory::types::{ContractError, ExecuteMsg, Factory, FactoryMsg, UpdateConfig};
use crate::ownership::MAX_PROPOSAL_TTL;
use crate::response::Response;

verus! {

/// The checks given with each asset list of the call line up with its assets,
/// and a proposal that can be accepted ends before the end of time.
pub open spec fn call_well_formed(msg: ExecuteMsg, now: u64) -> bool {
    match msg {
        ExecuteMsg::CreatePair { asset_infos, token_checks, .. } => token_checks@.len() == asset_infos@.len(),
        ExecuteMsg::Deregister { asset_infos, token_checks, .. } => token_checks@.len() == asset_infos@.len(),
        ExecuteMsg::PausePair { asset_infos, token_checks, .. } => token_checks@.len() == asset_infos@.len(),
        ExecuteMsg::UnpausePair { asset_infos, token_checks, .. } => token_checks@.len() == asset_infos@.len(),
        ExecuteMsg::ProposeNewOwner { expires_in, .. } => expires_in <= MAX_PROPOSAL_TTL ==> now + expires_in <= u64::MAX,
        _ => true,
    }
}

/// What answering a call does: the factory goes from `old` to `new` and
/// answers `r`.
pub open spec fn execute_outcome(
    old: Factory,
    new: Factory,
    sender: String,
    funds: Vec<Coin>,
    contract_addr: String,
    now: u64,
    msg: ExecuteMsg,
    r: Result<Response<FactoryMsg>, ContractError>,
) -> bool {
    match msg {
        ExecuteMsg::UpdateConfig {
            token_code_id,
            fee_address,
            generator_address,
            whitelist_code_id,
            coin_registry_address,
        } => update_config_outcome(old, new, sender, (UpdateConfig {
            token_code_id,
            fee_address,
            generator_address,
            whitelist_code_id,
            coin_registry_address,
        }), r),
        ExecuteMsg::UpdatePairConfig { config } => update_pair_config_outcome(old, new, sender, config, r),
        ExecuteMsg::CreatePair { pair_type, asset_infos, token_checks, init_params } => create_pair_outcome(
            old, new, sender, funds, contract_addr, pair_type, asset_infos, token_checks,
            init_params, r),
        ExecuteMsg::Deregister { asset_infos, token_checks, pair_type } => deregister_outcome(old,
            new, sender, asset_infos, token_checks, pair_type, r),
        ExecuteMsg::ProposeNewOwner { owner, expires_in } => propose_outcome(old, new, sender,
            owner, expires_in, now, r),
        ExecuteMsg::DropOwnershipProposal {} => drop_outcome(old, new, sender, r),
        ExecuteMsg::ClaimOwnership {} => claim_outcome(old, new, sender, now, r),
        ExecuteMsg::UpdateTrackerConfig { tracker_code_id, token_factory_addr } => tracker_config_outcome(
            old, new, sender, tracker_code_id, token_factory_addr, r),
        ExecuteMsg::PausePair { asset_infos, token_checks, pair_type } => pause_pair_outcome(old,
            new, sender, asset_infos, token_checks, pair_type, r),
        ExecuteMsg::UnpausePair { asset_infos, token_checks, pair_type } => unpause_pair_outcome(old,
            new, sender, asset_infos, token_checks, pair_type, r),
        ExecuteMsg::PausePairsBatch { batch_size } => pause_batch_outcome(old, new, sender,
            batch_size, r),
        ExecuteMsg::UnpausePairsBatch { batch_size } => unpause_batch_outcome(old, new, sender,
            batch_size, r),
        ExecuteMsg::AddPauseAuthorities { authorities } => add_authorities_outcome(old, new,
            sender, authorities, r),
        ExecuteMsg::RemovePauseAuthorities { authorities } => remove_authorities_outcome(old,
            new, sender, authorities, r),
    }
}


/// Two messages show the same: equal, but for a pair instantiation's label,
/// which is compared by its text.
pub open spec fn same_message(a: FactoryMsg, b: FactoryMsg) -> bool {
    match a {
        FactoryMsg::InstantiatePair {
            admin, code_id, pair_type, asset_infos, token_code_id, factory_addr, init_params, funds, label,
        } => match b {
            FactoryMsg::InstantiatePair {
                admin: admin2,
                code_id: code_id2,
                pair_type: pair_type2,
                asset_infos: asset_infos2,
                token_code_id: token_code_id2,
                factory_addr: factory_addr2,
                init_params: init_params2,
                funds: funds2,
                label: label2,
            } => admin == admin2 && code_id == code_id2 && pair_type == pair_type2 && asset_infos
                == asset_infos2 && token_code_id == token_code_id2 && factory_addr == factory_addr2
                && init_params == init_params2 && funds == funds2 && label@ == label2@,
            _ => false,
        },
        _ => a == b,
    }
}

/// Two answers show the same: the same messages and attributes, or the same
/// error (a standard error compared by its text).
pub open spec fn same_answer(r1: Result<Response<FactoryMsg>, ContractError>, r2: Result<Response<FactoryMsg>, ContractError>) -> bool {
    match r1 {
        Ok(x) => match r2 {
            Ok(y) => x.messages@.len() == y.messages@.len() && (forall|i: int|
                0 <= i < x.messages@.len() ==> same_message(#[trigger] x.messages@[i], y.messages@[i]))
                && x.attrs() == y.attrs(),
            Err(_) => false,
        },
        Err(e1) => match r2 {
            Ok(_) => false,
            Err(e2) => match e1 {
                ContractError::Std(x) => match e2 {
                    ContractError::Std(y) => x.text@ == y.text@,
                    _ => false,
                },
                _ => e1 == e2,
            },
        },
    }
}

impl Factory {
    /// Answers a call from `sender`, who sent `funds`, at time `now`;
    /// `contract_addr` is this factory's address.
    pub fn execute(
        &mut self,
        sender: &String,
        funds: Vec<Coin>,
        contract_addr: &String,
        now: u64,
        msg: ExecuteMsg,
    ) -> (r: Result<Response<FactoryMsg>, ContractError>)
        requires
            old(self).wf(),
            call_well_formed(msg, now),
        ensures
            final(self).wf(),
            execute_outcome(*old(self), *final(self), *sender, funds, *contract_addr, now, msg, r),
    {
        match msg {
            ExecuteMsg::UpdateConfig {
                token_code_id,
                fee_address,
                generator_address,
                whitelist_code_id,
                coin_registry_address,
            } => self.execute_update_config(sender, UpdateConfig {
                token_code_id,
                fee_address,
                generator_address,
                whitelist_code_id,
                coin_registry_address,
            }),
            ExecuteMsg::UpdatePairConfig { config } => self.execute_update_pair_config(sender, config),
            ExecuteMsg::CreatePair { pair_type, asset_infos, token_checks, init_params } => {
                self.execute_create_pair(sender, funds, contract_addr, pair_type, asset_infos, &token_checks, init_params)
            },
            ExecuteMsg::Deregister { asset_infos, token_checks, pair_type } => {
                self.deregister(sender, &asset_infos, &token_checks, &pair_type)
            },
            ExecuteMsg::ProposeNewOwner { owner, expires_in } => self.propose_new_owner(sender, owner, expires_in, now),
            ExecuteMsg::DropOwnershipProposal {} => self.drop_ownership_proposal(sender),
            ExecuteMsg::ClaimOwnership {} => self.claim_ownership(sender, now),
            ExecuteMsg::UpdateTrackerConfig { tracker_code_id, token_factory_addr } => {
                self.update_tracker_config(sender, tracker_code_id, token_factory_addr)
            },
            ExecuteMsg::PausePair { asset_infos, token_checks, pair_type } => {
                self.pause_pair(sender, &asset_infos, &token_checks, &pair_type)
            },
            ExecuteMsg::UnpausePair { asset_infos, token_checks, pair_type } => {
                self.unpause_pair(sender, &asset_infos, &token_checks, &pair_type)
            },
            ExecuteMsg::PausePairsBatch { batch_size } => self.pause_pairs_batch(sender, batch_size),
            ExecuteMsg::UnpausePairsBatch { batch_size } => self.unpause_pairs_batch(sender, batch_size),
            ExecuteMsg::AddPauseAuthorities { authorities } => self.add_pause_authorities(sender, authorities),
            ExecuteMsg::RemovePauseAuthorities { authorities } => self.remove_pause_authorities(sender, authorities),
        }
    }
}

} // verus!
