//! Pausing and unpausing pairs, and the addresses allowed to pause them.
use vstd::prelude::*;
use vstd::string::*;
use crate::asset::{AssetInfo, PairType, utf8, string_bytes};
use crate::error::{Checked, StdError, generic_text, not_found_text, addr_kind, pair_not_found};
use crate::factory::types::{ContractError, Factory, FactoryMsg, FactoryState, error_text};
use crate::factory::checks::{asset_infos_error, asset_refusal, check_asset_infos, has_asset_error};
use crate::keys::{pair_key, pair_key_spec};
use crate::ordered::ByteMap;
use crate::response::{Response, bool_string, bool_text};
use crate::text::{bracketed, bracketed_bytes, dec, decimal};

verus! {

/// The sender may pause pairs: it is the owner or a pause authority.
pub open spec fn can_pause(s: FactoryState, sender: Seq<char>) -> bool {
    sender == s.config.owner@ || s.authorities.contains_key(utf8(sender))
}

/// The sender may unpause pairs: only the owner may.
pub open spec fn can_unpause(s: FactoryState, sender: Seq<char>) -> bool {
    sender == s.config.owner@
}

/// The error that pausing the pair stored under `key` gives once its assets
/// passed their checks.
pub open spec fn pause_error(s: FactoryState, sender: Seq<char>, key: Seq<u8>) -> Option<Seq<char>> {
    if !can_pause(s, sender) {
        Some(error_text(ContractError::NoPauseAuthority {}))
    } else if !s.pairs.contains_key(key) {
        Some(not_found_text(addr_kind()))
    } else if s.paused.contains(key) {
        Some(error_text(ContractError::PairAlreadyPaused {}))
    } else {
        None
    }
}

/// The error that unpausing the pair stored under `key` gives once its assets
/// passed their checks.
pub open spec fn unpause_error(s: FactoryState, sender: Seq<char>, key: Seq<u8>) -> Option<Seq<char>> {
    if !can_unpause(s, sender) {
        Some(error_text(ContractError::NoUnpauseAuthority {}))
    } else if !s.pairs.contains_key(key) {
        Some(not_found_text(addr_kind()))
    } else if !s.paused.contains(key) {
        Some(error_text(ContractError::PairNotPaused {}))
    } else {
        None
    }
}

/// `r` is the refusal that pausing the pair under `key` gives once its assets
/// passed their checks: no authority, no such pair, or already paused.
pub open spec fn pause_refusal<T>(s: FactoryState, sender: Seq<char>, key: Seq<u8>, r: Result<T, ContractError>) -> bool {
    if !can_pause(s, sender) {
        r == Err::<T, ContractError>(ContractError::NoPauseAuthority {})
    } else if !s.pairs.contains_key(key) {
        r matches Err(ContractError::Std(e)) && e.text@ == not_found_text(addr_kind())
    } else {
        r == Err::<T, ContractError>(ContractError::PairAlreadyPaused {})
    }
}

/// `r` is the refusal that unpausing the pair under `key` gives once its
/// assets passed their checks: not the owner, no such pair, or not paused.
pub open spec fn unpause_refusal<T>(s: FactoryState, sender: Seq<char>, key: Seq<u8>, r: Result<T, ContractError>) -> bool {
    if !can_unpause(s, sender) {
        r == Err::<T, ContractError>(ContractError::NoUnpauseAuthority {})
    } else if !s.pairs.contains_key(key) {
        r matches Err(ContractError::Std(e)) && e.text@ == not_found_text(addr_kind())
    } else {
        r == Err::<T, ContractError>(ContractError::PairNotPaused {})
    }
}

/// The state after the pair under `key` is paused.
pub open spec fn paused_state(s: FactoryState, key: Seq<u8>) -> FactoryState {
    FactoryState { paused: s.paused.insert(key), ..s }
}

/// The state after the pair under `key` is unpaused.
pub open spec fn unpaused_state(s: FactoryState, key: Seq<u8>) -> FactoryState {
    FactoryState { paused: s.paused.remove(key), ..s }
}

/// The number of pairs that a batch handles, after the default and the cap.
pub open spec fn batch_limit(batch_size: Option<u32>) -> nat {
    let b = match batch_size {
        Some(v) => v,
        None => 50u32,
    };
    if b < 100 {
        b as nat
    } else {
        100
    }
}

/// The stored pairs as keys and addresses, in key order.
pub open spec fn pair_entries(f: Factory) -> Seq<(Seq<u8>, String)> {
    f.pairs.entries@.map_values(|e: (Vec<u8>, String)| (e.0@, e.1))
}

/// The stored pairs that are not paused, in key order.
pub open spec fn unpaused_entries(pairs: Seq<(Seq<u8>, String)>, paused: Set<Seq<u8>>) -> Seq<(Seq<u8>, String)> {
    pairs.filter(|e: (Seq<u8>, String)| !paused.contains(e.0))
}

/// The first `n` items of `s`, or all of them when there are fewer.
pub open spec fn first_n<A>(s: Seq<A>, n: nat) -> Seq<A> {
    if n <= s.len() {
        s.take(n as int)
    } else {
        s
    }
}

/// The pairs that a batch pause handles: the first unpaused pairs in key order.
pub open spec fn batch_to_pause(f: Factory, batch_size: Option<u32>) -> Seq<(Seq<u8>, String)> {
    first_n(unpaused_entries(pair_entries(f), f.state().paused), batch_limit(batch_size))
}

/// The paused keys that a batch unpause handles: the first in key order.
pub open spec fn batch_to_unpause(f: Factory, batch_size: Option<u32>) -> Seq<Seq<u8>> {
    first_n(f.paused.keys(), batch_limit(batch_size))
}

/// The keys of some entries.
pub open spec fn entry_keys(es: Seq<(Seq<u8>, String)>) -> Seq<Seq<u8>> {
    es.map_values(|e: (Seq<u8>, String)| e.0)
}

/// The view of collected entries.
pub open spec fn entries_view(es: Seq<(Vec<u8>, String)>) -> Seq<(Seq<u8>, String)> {
    es.map_values(|e: (Vec<u8>, String)| (e.0@, e.1))
}

/// The authorities after adding each of `addrs` that is not there yet, and how
/// many were added.
pub open spec fn add_authorities(m: Map<Seq<u8>, String>, addrs: Seq<String>) -> (Map<Seq<u8>, String>, nat)
    decreases addrs.len(),
{
    if addrs.len() == 0 {
        (m, 0)
    } else {
        let (m0, n0) = add_authorities(m, addrs.drop_last());
        let a = addrs.last();
        if m0.contains_key(utf8(a@)) {
            (m0, n0)
        } else {
            (m0.insert(utf8(a@), a), n0 + 1)
        }
    }
}

/// The authorities after removing each of `addrs`, and how many were removed.
pub open spec fn remove_authorities(m: Map<Seq<u8>, String>, addrs: Seq<String>) -> (Map<Seq<u8>, String>, nat)
    decreases addrs.len(),
{
    if addrs.len() == 0 {
        (m, 0)
    } else {
        let (m0, n0) = remove_authorities(m, addrs.drop_last());
        let a = addrs.last();
        if m0.contains_key(utf8(a@)) {
            (m0.remove(utf8(a@)), n0 + 1)
        } else {
            (m0, n0)
        }
    }
}

/// The first address of the list whose check failed, if any.
pub open spec fn first_invalid(addrs: Seq<(String, Checked)>) -> Option<String>
    decreases addrs.len(),
{
    if addrs.len() == 0 {
        None
    } else if addrs[0].1 is Err {
        Some(addrs[0].0)
    } else {
        first_invalid(addrs.drop_first())
    }
}

/// The validated addresses of the list.
pub open spec fn valid_addrs(addrs: Seq<(String, Checked)>) -> Seq<String> {
    addrs.map_values(|p: (String, Checked)| p.1->Ok_0)
}

/// What pausing one pair does: the factory goes from `old` to `new` and answers `r`.
pub open spec fn pause_pair_outcome(
    old: Factory,
    new: Factory,
    sender: String,
    asset_infos: Vec<AssetInfo>,
    token_checks: Vec<Result<(), StdError>>,
    pair_type: PairType,
    r: Result<Response<FactoryMsg>, ContractError>,
) -> bool {
    &&& (has_asset_error(asset_infos@, token_checks@) ==> asset_refusal(asset_infos@, token_checks@, r)
        && new == old)
    &&& (!has_asset_error(asset_infos@, token_checks@) ==> match pause_error(
        old.state(), sender@, pair_key_spec(asset_infos@, pair_type)) {
        Some(_) => pause_refusal(old.state(), sender@, pair_key_spec(asset_infos@, pair_type), r) && new == old,
        None => r matches Ok(resp) && new.state() =~= paused_state(
            old.state(), pair_key_spec(asset_infos@, pair_type))
            && resp.messages@ =~= seq![FactoryMsg::Pause {
                contract_addr: old.state().pairs[pair_key_spec(asset_infos@, pair_type)],
            }] && resp.attrs() =~= seq![
                ("action"@, "pause_pair"@),
                ("pair_key"@, bracketed_bytes(pair_key_spec(asset_infos@, pair_type))),
            ],
    })
}

/// What unpausing one pair does: the factory goes from `old` to `new` and answers `r`.
pub open spec fn unpause_pair_outcome(
    old: Factory,
    new: Factory,
    sender: String,
    asset_infos: Vec<AssetInfo>,
    token_checks: Vec<Result<(), StdError>>,
    pair_type: PairType,
    r: Result<Response<FactoryMsg>, ContractError>,
) -> bool {
    &&& (has_asset_error(asset_infos@, token_checks@) ==> asset_refusal(asset_infos@, token_checks@, r)
        && new == old)
    &&& (!has_asset_error(asset_infos@, token_checks@) ==> match unpause_error(
        old.state(), sender@, pair_key_spec(asset_infos@, pair_type)) {
        Some(_) => unpause_refusal(old.state(), sender@, pair_key_spec(asset_infos@, pair_type), r) && new == old,
        None => r matches Ok(resp) && new.state() =~= unpaused_state(
            old.state(), pair_key_spec(asset_infos@, pair_type))
            && resp.messages@ =~= seq![FactoryMsg::Unpause {
                contract_addr: old.state().pairs[pair_key_spec(asset_infos@, pair_type)],
            }] && resp.attrs() =~= seq![
                ("action"@, "unpause_pair"@),
                ("pair_key"@, bracketed_bytes(pair_key_spec(asset_infos@, pair_type))),
            ],
    })
}

/// What a batch pause does: the factory goes from `old` to `new` and answers `r`.
pub open spec fn pause_batch_outcome(
    old: Factory,
    new: Factory,
    sender: String,
    batch_size: Option<u32>,
    r: Result<Response<FactoryMsg>, ContractError>,
) -> bool {
    &&& (!can_pause(old.state(), sender@) ==> r == Err::<Response<FactoryMsg>, ContractError>(
        ContractError::NoPauseAuthority {},
    ) && new == old)
    &&& (can_pause(old.state(), sender@) ==> (r matches Ok(resp) && new.state() =~= (FactoryState {
        paused: old.state().paused.union(entry_keys(batch_to_pause(old, batch_size)).to_set()),
        ..old.state()
    }) && resp.messages@ =~= batch_to_pause(old, batch_size).map_values(
        |e: (Seq<u8>, String)| FactoryMsg::Pause { contract_addr: e.1 },
    ) && resp.attrs() =~= seq![
        ("action"@, "pause_pairs_batch"@),
        ("paused_count"@, dec(batch_to_pause(old, batch_size).len())),
        ("processed_count"@, dec(batch_to_pause(old, batch_size).len())),
        ("batch_size"@, dec(batch_limit(batch_size))),
        ("has_more"@, bool_text(old.pairs.size() > old.paused.size()
            + batch_to_pause(old, batch_size).len())),
    ]))
}

/// What a batch unpause does: the factory goes from `old` to `new` and answers `r`.
pub open spec fn unpause_batch_outcome(
    old: Factory,
    new: Factory,
    sender: String,
    batch_size: Option<u32>,
    r: Result<Response<FactoryMsg>, ContractError>,
) -> bool {
    &&& (!can_unpause(old.state(), sender@) ==> r == Err::<Response<FactoryMsg>, ContractError>(
        ContractError::NoUnpauseAuthority {},
    ) && new == old)
    &&& (can_unpause(old.state(), sender@) && (exists|i: int| 0 <= i < batch_to_unpause(old, batch_size).len()
        && !old.state().pairs.contains_key(#[trigger] batch_to_unpause(old, batch_size)[i]))
        ==> (r matches Err(ContractError::Std(e)) && e.text@ == not_found_text(addr_kind()) && new == old))
    &&& (can_unpause(old.state(), sender@) && (forall|i: int| 0 <= i < batch_to_unpause(old, batch_size).len()
        ==> old.state().pairs.contains_key(#[trigger] batch_to_unpause(old, batch_size)[i]))
        ==> (r matches Ok(resp) && new.state() =~= (FactoryState {
            paused: old.state().paused.difference(batch_to_unpause(old, batch_size).to_set()),
            ..old.state()
        }) && resp.messages@ =~= batch_to_unpause(old, batch_size).map_values(
            |k: Seq<u8>| FactoryMsg::Unpause { contract_addr: old.state().pairs[k] },
        ) && resp.attrs() =~= seq![
            ("action"@, "unpause_pairs_batch"@),
            ("unpaused_count"@, dec(batch_to_unpause(old, batch_size).len())),
            ("processed_count"@, dec(batch_to_unpause(old, batch_size).len())),
            ("batch_size"@, dec(batch_limit(batch_size))),
            ("has_more"@, bool_text(old.paused.size() > batch_to_unpause(old, batch_size).len())),
        ]))
}

/// What adding pause authorities does: the factory goes from `old` to `new` and answers `r`.
pub open spec fn add_authorities_outcome(
    old: Factory,
    new: Factory,
    sender: String,
    authorities: Vec<(String, Checked)>,
    r: Result<Response<FactoryMsg>, ContractError>,
) -> bool {
    &&& (sender@ != old.config.owner@ ==> r == Err::<Response<FactoryMsg>, ContractError>(ContractError::Unauthorized {})
        && new == old)
    &&& (sender@ == old.config.owner@ && first_invalid(authorities@) is Some ==> r == Err::<Response<FactoryMsg>, ContractError>(
        ContractError::InvalidPauseAuthority { address: first_invalid(authorities@)->Some_0 },
    ) && new == old)
    &&& (sender@ == old.config.owner@ && first_invalid(authorities@) is None ==> (r matches Ok(resp)
        && new.state() =~= (FactoryState {
            authorities: add_authorities(old.state().authorities, valid_addrs(authorities@)).0,
            ..old.state()
        }) && resp.messages@.len() == 0 && resp.attrs() =~= seq![
            ("action"@, "add_pause_authorities"@),
            ("added_count"@, dec(add_authorities(old.state().authorities, valid_addrs(authorities@)).1)),
        ]))
}

/// What removing pause authorities does: the factory goes from `old` to `new` and answers `r`.
pub open spec fn remove_authorities_outcome(
    old: Factory,
    new: Factory,
    sender: String,
    authorities: Vec<(String, Checked)>,
    r: Result<Response<FactoryMsg>, ContractError>,
) -> bool {
    &&& (sender@ != old.config.owner@ ==> r == Err::<Response<FactoryMsg>, ContractError>(ContractError::Unauthorized {})
        && new == old)
    &&& (sender@ == old.config.owner@ && first_invalid(authorities@) is Some ==> r == Err::<Response<FactoryMsg>, ContractError>(
        ContractError::InvalidPauseAuthority { address: first_invalid(authorities@)->Some_0 },
    ) && new == old)
    &&& (sender@ == old.config.owner@ && first_invalid(authorities@) is None ==> (r matches Ok(resp)
        && new.state() =~= (FactoryState {
            authorities: remove_authorities(old.state().authorities, valid_addrs(authorities@)).0,
            ..old.state()
        }) && resp.messages@.len() == 0 && resp.attrs() =~= seq![
            ("action"@, "remove_pause_authorities"@),
            ("removed_count"@, dec(remove_authorities(old.state().authorities, valid_addrs(authorities@)).1)),
        ]))
}

impl Factory {
    /// Whether `sender` may pause pairs: the owner or a pause authority.
    pub fn check_pause_authority(&self, sender: &String) -> (r: Result<(), ContractError>)
        requires
            self.wf(),
        ensures
            can_pause(self.state(), sender@) ==> r is Ok,
            !can_pause(self.state(), sender@) ==> r == Err::<(), ContractError>(ContractError::NoPauseAuthority {}),
    {
        if *sender == self.config.owner {
            return Ok(());
        }
        if self.pause_authorities.contains(&string_bytes(sender)) {
            return Ok(());
        }
        Err(ContractError::NoPauseAuthority {})
    }

    /// Whether `sender` may unpause pairs: only the owner.
    pub fn check_unpause_authority(&self, sender: &String) -> (r: Result<(), ContractError>)
        ensures
            can_unpause(self.state(), sender@) ==> r is Ok,
            !can_unpause(self.state(), sender@) ==> r == Err::<(), ContractError>(ContractError::NoUnpauseAuthority {}),
    {
        if *sender == self.config.owner {
            return Ok(());
        }
        Err(ContractError::NoUnpauseAuthority {})
    }

    /// Pauses the pair of `asset_infos` and `pair_type`. Only the owner or a
    /// pause authority may do so; the pair must exist and not be paused yet.
    pub fn pause_pair(
        &mut self,
        sender: &String,
        asset_infos: &Vec<AssetInfo>,
        token_checks: &Vec<Result<(), StdError>>,
        pair_type: &PairType,
    ) -> (r: Result<Response<FactoryMsg>, ContractError>)
        requires
            old(self).wf(),
            token_checks@.len() == asset_infos@.len(),
        ensures
            final(self).wf(),
            pause_pair_outcome(*old(self), *final(self), *sender, *asset_infos, *token_checks, *pair_type, r),
    {
        match check_asset_infos(asset_infos, token_checks) {
            Ok(_) => {},
            Err(e) => return Err(e),
        }
        match self.check_pause_authority(sender) {
            Ok(_) => {},
            Err(e) => return Err(e),
        }
        let key = pair_key(asset_infos, pair_type);
        let pair_addr = match self.pairs.get(&key) {
            Some(a) => a.clone(),
            None => return Err(ContractError::Std(pair_not_found())),
        };
        if self.paused.contains(&key) {
            return Err(ContractError::PairAlreadyPaused {});
        }
        let shown = bracketed(&key);
        let ghost kv = key@;
        self.paused.insert(key, ());
        assert(self.state().paused =~= old(self).state().paused.insert(kv));
        let mut resp = Response::new();
        resp.add_message(FactoryMsg::Pause { contract_addr: pair_addr });
        resp.add_attribute("action", String::from_str("pause_pair"));
        resp.add_attribute("pair_key", shown);
        Ok(resp)
    }

    /// Unpauses the pair of `asset_infos` and `pair_type`. Only the owner may do
    /// so; the pair must exist and be paused.
    pub fn unpause_pair(
        &mut self,
        sender: &String,
        asset_infos: &Vec<AssetInfo>,
        token_checks: &Vec<Result<(), StdError>>,
        pair_type: &PairType,
    ) -> (r: Result<Response<FactoryMsg>, ContractError>)
        requires
            old(self).wf(),
            token_checks@.len() == asset_infos@.len(),
        ensures
            final(self).wf(),
            unpause_pair_outcome(*old(self), *final(self), *sender, *asset_infos, *token_checks, *pair_type, r),
    {
        match check_asset_infos(asset_infos, token_checks) {
            Ok(_) => {},
            Err(e) => return Err(e),
        }
        match self.check_unpause_authority(sender) {
            Ok(_) => {},
            Err(e) => return Err(e),
        }
        let key = pair_key(asset_infos, pair_type);
        let pair_addr = match self.pairs.get(&key) {
            Some(a) => a.clone(),
            None => return Err(ContractError::Std(pair_not_found())),
        };
        if !self.paused.contains(&key) {
            return Err(ContractError::PairNotPaused {});
        }
        let shown = bracketed(&key);
        let ghost kv = key@;
        self.paused.remove(&key);
        assert(self.state().paused =~= old(self).state().paused.remove(kv));
        let mut resp = Response::new();
        resp.add_message(FactoryMsg::Unpause { contract_addr: pair_addr });
        resp.add_attribute("action", String::from_str("unpause_pair"));
        resp.add_attribute("pair_key", shown);
        Ok(resp)
    }
}

impl Factory {
    /// Pauses, in key order, up to `batch_size` pairs (50 when not given, never
    /// more than 100) that are not paused yet. Only the owner or a pause
    /// authority may do so. The response tells how many were paused and whether
    /// more pairs than the stored pauses account for remain.
    pub fn pause_pairs_batch(&mut self, sender: &String, batch_size: Option<u32>) -> (r: Result<Response<FactoryMsg>, ContractError>)
        requires
            old(self).wf(),
        ensures
            final(self).wf(),
            pause_batch_outcome(*old(self), *final(self), *sender, batch_size, r),
    {
        match self.check_pause_authority(sender) {
            Ok(_) => {},
            Err(e) => return Err(e),
        }
        let b = match batch_size {
            Some(v) => v,
            None => 50u32,
        };
        let b: u32 = if b < 100 { b } else { 100 };
        let ghost old_paused = self.state().paused;
        let ghost es = pair_entries(*self);
        let ghost pred = |e: (Seq<u8>, String)| !old_paused.contains(e.0);
        // collect the unpaused pairs first
        let mut chosen: Vec<(Vec<u8>, String)> = Vec::new();
        let mut i: usize = 0;
        assert(es.take(0).filter(pred) =~= Seq::<(Seq<u8>, String)>::empty()) by {
            reveal(Seq::filter);
        }
        while i < self.pairs.entries.len()
            invariant
                self.wf(),
                i <= es.len(),
                es == pair_entries(*self),
                es.len() == self.pairs.size(),
                old_paused == self.state().paused,
                pred == (|e: (Seq<u8>, String)| !old_paused.contains(e.0)),
                b == batch_limit(batch_size),
                chosen@.len() <= b,
                chosen@.len() <= es.take(i as int).filter(pred).len(),
                entries_view(chosen@) == es.take(i as int).filter(pred).take(chosen@.len() as int),
                chosen@.len() == b || chosen@.len() == es.take(i as int).filter(pred).len(),
            decreases es.len() - i,
        {
            let e = &self.pairs.entries[i];
            let is_paused = self.paused.contains(&e.0);
            proof {
                assert(es.take(i + 1) =~= es.take(i as int).push(es[i as int]));
                es.take(i as int).lemma_filter_push(es[i as int], pred);
                assert(es[i as int] == (e.0@, e.1));
                assert(is_paused == old_paused.contains(es[i as int].0));
            }
            let ghost f0 = es.take(i as int).filter(pred);
            let ghost f1 = es.take(i + 1).filter(pred);
            if !is_paused && chosen.len() < b as usize {
                let ghost before = chosen@;
                chosen.push((vstd::slice::slice_to_vec(e.0.as_slice()), e.1.clone()));
                proof {
                    assert(f1 =~= f0.push(es[i as int]));
                    assert(entries_view(before) =~= f0);
                    assert(entries_view(chosen@) =~= entries_view(before).push(es[i as int]));
                    assert(entries_view(chosen@) =~= f1.take(chosen@.len() as int));
                }
            } else {
                proof {
                    if !is_paused {
                        assert(f1 =~= f0.push(es[i as int]));
                    } else {
                        assert(f1 == f0);
                    }
                    assert(entries_view(chosen@) =~= f1.take(chosen@.len() as int));
                }
            }
            i = i + 1;
        }
        assert(es.take(i as int) =~= es);
        assert(entries_view(chosen@) == batch_to_pause(*old(self), batch_size));
        let total_pairs = self.pairs.len();
        let total_paused = self.paused.len();
        let has_more = total_pairs as u128 > total_paused as u128 + chosen.len() as u128;
        // then pause them
        let mut resp = Response::new();
        let mut j: usize = 0;
        while j < chosen.len()
            invariant
                self.wf(),
                j <= chosen@.len(),
                self.pairs == old(self).pairs,
                self.pair_order == old(self).pair_order,
                self.pause_authorities == old(self).pause_authorities,
                self.pair_configs == old(self).pair_configs,
                self.config == old(self).config,
                self.tracker_config == old(self).tracker_config,
                self.tmp_pair_info == old(self).tmp_pair_info,
                self.ownership_proposal == old(self).ownership_proposal,
                self.state().paused == old_paused.union(entry_keys(entries_view(chosen@).take(j as int)).to_set()),
                resp.messages@ == entries_view(chosen@).take(j as int).map_values(
                    |e: (Seq<u8>, String)| FactoryMsg::Pause { contract_addr: e.1 },
                ),
                resp.attrs().len() == 0,
            decreases chosen@.len() - j,
        {
            let key = vstd::slice::slice_to_vec(chosen[j].0.as_slice());
            let ghost before = self.state().paused;
            self.paused.insert(key, ());
            resp.add_message(FactoryMsg::Pause { contract_addr: chosen[j].1.clone() });
            proof {
                let cv = entries_view(chosen@);
                assert(cv.take(j + 1) =~= cv.take(j as int).push(cv[j as int]));
                let ek = entry_keys(cv.take(j as int));
                assert(entry_keys(cv.take(j + 1)) =~= ek.push(cv[j as int].0));
                ek.lemma_push_to_set_commute(cv[j as int].0);
                assert(self.state().paused =~= before.insert(cv[j as int].0));
                assert(self.state().paused =~= old_paused.union(entry_keys(cv.take(j + 1)).to_set()));
                assert(resp.messages@ =~= cv.take(j + 1).map_values(
                    |e: (Seq<u8>, String)| FactoryMsg::Pause { contract_addr: e.1 },
                ));
            }
            j = j + 1;
        }
        assert(entries_view(chosen@).take(j as int) =~= entries_view(chosen@));
        let count = decimal(chosen.len() as u128);
        resp.add_attribute("action", String::from_str("pause_pairs_batch"));
        resp.add_attribute("paused_count", count.clone());
        resp.add_attribute("processed_count", count);
        resp.add_attribute("batch_size", decimal(b as u128));
        resp.add_attribute("has_more", bool_string(has_more));
        Ok(resp)
    }

    /// Unpauses, in key order, up to `batch_size` paused pairs (50 when not
    /// given, never more than 100). Only the owner may do so; every key handled
    /// must still have its pair stored.
    pub fn unpause_pairs_batch(&mut self, sender: &String, batch_size: Option<u32>) -> (r: Result<Response<FactoryMsg>, ContractError>)
        requires
            old(self).wf(),
        ensures
            final(self).wf(),
            unpause_batch_outcome(*old(self), *final(self), *sender, batch_size, r),
    {
        match self.check_unpause_authority(sender) {
            Ok(_) => {},
            Err(e) => return Err(e),
        }
        let b = match batch_size {
            Some(v) => v,
            None => 50u32,
        };
        let b: u32 = if b < 100 { b } else { 100 };
        let n: usize = if (b as usize) < self.paused.len() { b as usize } else { self.paused.len() };
        let ghost ks = batch_to_unpause(*old(self), batch_size);
        assert(ks =~= self.paused.keys().take(n as int));
        // look up every pair first
        let mut targets: Vec<(Vec<u8>, String)> = Vec::new();
        let mut i: usize = 0;
        while i < n
            invariant
                self.wf(),
                *self == *old(self),
                can_unpause(old(self).state(), sender@),
                ks == batch_to_unpause(*old(self), batch_size),
                n <= self.paused.size(),
                ks == self.paused.keys().take(n as int),
                i <= n,
                targets@.len() == i,
                forall|k: int| 0 <= k < i ==> self.state().pairs.contains_key(#[trigger] ks[k]),
                forall|k: int| 0 <= k < i ==> (#[trigger] targets@[k]).0@ == ks[k]
                    && targets@[k].1 == self.state().pairs[ks[k]],
            decreases n - i,
        {
            let key = &self.paused.entries[i].0;
            assert(key@ == ks[i as int]);
            match self.pairs.get(key) {
                Some(a) => {
                    targets.push((vstd::slice::slice_to_vec(key.as_slice()), a.clone()));
                },
                None => {
                    assert(!old(self).state().pairs.contains_key(ks[i as int]));
                    return Err(ContractError::Std(pair_not_found()));
                },
            }
            i = i + 1;
        }
        let has_more = self.paused.len() > n;
        let mut resp = Response::new();
        let ghost old_paused = self.state().paused;
        let mut j: usize = 0;
        while j < n
            invariant
                self.wf(),
                j <= n,
                n == targets@.len(),
                n == ks.len(),
                forall|k: int| 0 <= k < n ==> (#[trigger] targets@[k]).0@ == ks[k]
                    && targets@[k].1 == old(self).state().pairs[ks[k]],
                self.pairs == old(self).pairs,
                self.pair_order == old(self).pair_order,
                self.pause_authorities == old(self).pause_authorities,
                self.pair_configs == old(self).pair_configs,
                self.config == old(self).config,
                self.tracker_config == old(self).tracker_config,
                self.tmp_pair_info == old(self).tmp_pair_info,
                self.ownership_proposal == old(self).ownership_proposal,
                old_paused == old(self).state().paused,
                self.state().paused == old_paused.difference(ks.take(j as int).to_set()),
                resp.messages@ == ks.take(j as int).map_values(
                    |k: Seq<u8>| FactoryMsg::Unpause { contract_addr: old(self).state().pairs[k] },
                ),
                resp.attrs().len() == 0,
            decreases n - j,
        {
            let ghost before = self.state().paused;
            self.paused.remove(&targets[j].0);
            resp.add_message(FactoryMsg::Unpause { contract_addr: targets[j].1.clone() });
            proof {
                assert(ks.take(j + 1) =~= ks.take(j as int).push(ks[j as int]));
                assert(self.state().paused =~= before.remove(ks[j as int]));
                ks.take(j as int).lemma_push_to_set_commute(ks[j as int]);
                assert(self.state().paused =~= old_paused.difference(ks.take(j + 1).to_set()));
                assert(resp.messages@ =~= ks.take(j + 1).map_values(
                    |k: Seq<u8>| FactoryMsg::Unpause { contract_addr: old(self).state().pairs[k] },
                ));
            }
            j = j + 1;
        }
        assert(ks.take(n as int) =~= ks);
        let count = decimal(n as u128);
        resp.add_attribute("action", String::from_str("unpause_pairs_batch"));
        resp.add_attribute("unpaused_count", count.clone());
        resp.add_attribute("processed_count", count);
        resp.add_attribute("batch_size", decimal(b as u128));
        resp.add_attribute("has_more", bool_string(has_more));
        Ok(resp)
    }
}

/// The first address of the list whose check failed, if any.
fn find_invalid(addrs: &Vec<(String, Checked)>) -> (r: Option<String>)
    ensures
        r == first_invalid(addrs@),
{
    let mut i: usize = 0;
    assert(addrs@.skip(0) =~= addrs@);
    while i < addrs.len()
        invariant
            i <= addrs@.len(),
            first_invalid(addrs@) == first_invalid(addrs@.skip(i as int)),
        decreases addrs.len() - i,
    {
        assert(addrs@.skip(i as int)[0] == addrs@[i as int]);
        if addrs[i].1.is_err() {
            return Some(addrs[i].0.clone());
        }
        assert(addrs@.skip(i as int).drop_first() =~= addrs@.skip(i + 1));
        i = i + 1;
    }
    None
}

/// Stores `addr` under its own bytes, when it is not there yet.
fn insert_authority(m: &mut ByteMap<String>, addr: &String) -> (added: bool)
    requires
        old(m).wf(),
        forall|x: int| 0 <= x < old(m).size() ==> #[trigger] old(m).key_at(x) == utf8(old(m).val_at(x)@),
    ensures
        final(m).wf(),
        forall|x: int| 0 <= x < final(m).size() ==> #[trigger] final(m).key_at(x) == utf8(final(m).val_at(x)@),
        added == !old(m).map().contains_key(utf8(addr@)),
        added ==> final(m).map() == old(m).map().insert(utf8(addr@), *addr),
        !added ==> final(m).map() == old(m).map(),
{
    let key = string_bytes(addr);
    if m.contains(&key) {
        return false;
    }
    let ghost kv = key@;
    m.insert(key, addr.clone());
    proof {
        assert forall|x: int| 0 <= x < m.size() implies #[trigger] m.key_at(x) == utf8(m.val_at(x)@) by {
            let k = m.key_at(x);
            m.lemma_index_unique(x, k);
            assert(m.map().contains_key(k));
            if k != kv {
                assert(old(m).map().contains_key(k));
                let y = choose|y: int| 0 <= y < old(m).size() && #[trigger] old(m).key_at(y) == k;
                old(m).lemma_index_unique(y, k);
                assert(m.map()[k] == old(m).map()[k]);
            } else {
                assert(m.map()[k] == *addr);
            }
        }
    }
    true
}

/// Removes the address stored under the bytes of `addr`, when there is one.
fn remove_authority(m: &mut ByteMap<String>, addr: &String) -> (removed: bool)
    requires
        old(m).wf(),
        forall|x: int| 0 <= x < old(m).size() ==> #[trigger] old(m).key_at(x) == utf8(old(m).val_at(x)@),
    ensures
        final(m).wf(),
        forall|x: int| 0 <= x < final(m).size() ==> #[trigger] final(m).key_at(x) == utf8(final(m).val_at(x)@),
        removed == old(m).map().contains_key(utf8(addr@)),
        final(m).map() == old(m).map().remove(utf8(addr@)),
{
    let key = string_bytes(addr);
    let r = m.remove(&key);
    proof {
        assert forall|x: int| 0 <= x < m.size() implies #[trigger] m.key_at(x) == utf8(m.val_at(x)@) by {
            let k = m.key_at(x);
            m.lemma_index_unique(x, k);
            assert(m.map().contains_key(k));
            assert(old(m).map().contains_key(k));
            let y = choose|y: int| 0 <= y < old(m).size() && #[trigger] old(m).key_at(y) == k;
            old(m).lemma_index_unique(y, k);
            assert(m.map()[k] == old(m).map()[k]);
        }
    }
    r.is_some()
}

impl Factory {
    /// Gives pause authority to the listed addresses (each with what the chain's
    /// address check answered for it). Only the owner may do so; an address
    /// that fails its check stops the whole call.
    pub fn add_pause_authorities(&mut self, sender: &String, authorities: Vec<(String, Checked)>) -> (r: Result<Response<FactoryMsg>, ContractError>)
        requires
            old(self).wf(),
        ensures
            final(self).wf(),
            add_authorities_outcome(*old(self), *final(self), *sender, authorities, r),
    {
        if *sender != self.config.owner {
            return Err(ContractError::Unauthorized {});
        }
        match find_invalid(&authorities) {
            Some(a) => return Err(ContractError::InvalidPauseAuthority { address: a }),
            None => {},
        }
        let ghost addrs = valid_addrs(authorities@);
        let ghost m0 = self.state().authorities;
        let mut count: u64 = 0;
        let mut i: usize = 0;
        while i < authorities.len()
            invariant
                self.wf(),
                i <= authorities@.len(),
                count <= i,
                addrs == valid_addrs(authorities@),
                first_invalid(authorities@) is None,
                self.pairs == old(self).pairs,
                self.pair_order == old(self).pair_order,
                self.paused == old(self).paused,
                self.pair_configs == old(self).pair_configs,
                self.config == old(self).config,
                self.tracker_config == old(self).tracker_config,
                self.tmp_pair_info == old(self).tmp_pair_info,
                self.ownership_proposal == old(self).ownership_proposal,
                m0 == old(self).state().authorities,
                (self.state().authorities, count as nat) == add_authorities(m0, addrs.take(i as int)),
            decreases authorities@.len() - i,
        {
            proof {
                lemma_first_invalid_none(authorities@, i as int);
            }
            let addr = match &authorities[i].1 {
                Ok(a) => a,
                Err(_) => {
                    return Err(ContractError::InvalidPauseAuthority { address: authorities[i].0.clone() });
                },
            };
            assert(addrs.take(i + 1).drop_last() =~= addrs.take(i as int));
            if insert_authority(&mut self.pause_authorities, addr) {
                count = count + 1;
            }
            i = i + 1;
        }
        assert(addrs.take(i as int) =~= addrs);
        let mut resp = Response::new();
        resp.add_attribute("action", String::from_str("add_pause_authorities"));
        resp.add_attribute("added_count", decimal(count as u128));
        Ok(resp)
    }

    /// Takes pause authority away from the listed addresses (each with what the
    /// chain's address check answered for it); addresses without authority are
    /// skipped. Only the owner may do so; an address that fails its check stops
    /// the whole call.
    pub fn remove_pause_authorities(&mut self, sender: &String, authorities: Vec<(String, Checked)>) -> (r: Result<Response<FactoryMsg>, ContractError>)
        requires
            old(self).wf(),
        ensures
            final(self).wf(),
            remove_authorities_outcome(*old(self), *final(self), *sender, authorities, r),
    {
        if *sender != self.config.owner {
            return Err(ContractError::Unauthorized {});
        }
        match find_invalid(&authorities) {
            Some(a) => return Err(ContractError::InvalidPauseAuthority { address: a }),
            None => {},
        }
        let ghost addrs = valid_addrs(authorities@);
        let ghost m0 = self.state().authorities;
        let mut count: u64 = 0;
        let mut i: usize = 0;
        while i < authorities.len()
            invariant
                self.wf(),
                i <= authorities@.len(),
                count <= i,
                addrs == valid_addrs(authorities@),
                first_invalid(authorities@) is None,
                self.pairs == old(self).pairs,
                self.pair_order == old(self).pair_order,
                self.paused == old(self).paused,
                self.pair_configs == old(self).pair_configs,
                self.config == old(self).config,
                self.tracker_config == old(self).tracker_config,
                self.tmp_pair_info == old(self).tmp_pair_info,
                self.ownership_proposal == old(self).ownership_proposal,
                m0 == old(self).state().authorities,
                (self.state().authorities, count as nat) == remove_authorities(m0, addrs.take(i as int)),
            decreases authorities@.len() - i,
        {
            proof {
                lemma_first_invalid_none(authorities@, i as int);
            }
            let addr = match &authorities[i].1 {
                Ok(a) => a,
                Err(_) => {
                    return Err(ContractError::InvalidPauseAuthority { address: authorities[i].0.clone() });
                },
            };
            assert(addrs.take(i + 1).drop_last() =~= addrs.take(i as int));
            if remove_authority(&mut self.pause_authorities, addr) {
                count = count + 1;
            } else {
                assert(self.state().authorities =~= remove_authorities(m0, addrs.take(i as int)).0.remove(utf8(addr@)));
            }
            i = i + 1;
        }
        assert(addrs.take(i as int) =~= addrs);
        let mut resp = Response::new();
        resp.add_attribute("action", String::from_str("remove_pause_authorities"));
        resp.add_attribute("removed_count", decimal(count as u128));
        Ok(resp)
    }

    /// Whether the pair of `asset_infos` and `pair_type` is paused; a failed
    /// asset check is reported as a generic error holding its text.
    pub fn query_is_pair_paused(&self, asset_infos: &Vec<AssetInfo>, token_checks: &Vec<Result<(), StdError>>, pair_type: &PairType) -> (r: Result<bool, StdError>)
        requires
            self.wf(),
            token_checks@.len() == asset_infos@.len(),
        ensures
            asset_infos_error(asset_infos@, token_checks@) is Some ==> (r matches Err(e)
                && e.text@ == generic_text(asset_infos_error(asset_infos@, token_checks@)->Some_0)),
            asset_infos_error(asset_infos@, token_checks@) is None ==> r == Ok::<bool, StdError>(
                self.state().paused.contains(pair_key_spec(asset_infos@, *pair_type)),
            ),
    {
        match check_asset_infos(asset_infos, token_checks) {
            Ok(_) => {},
            Err(e) => return Err(StdError::generic_err(e.to_string())),
        }
        let key = pair_key(asset_infos, pair_type);
        Ok(self.paused.contains(&key))
    }

    /// The addresses with pause authority, in key order.
    pub fn query_pause_authorities(&self) -> (r: Vec<String>)
        requires
            self.wf(),
        ensures
            r@ == self.pause_authorities.values(),
    {
        let mut out: Vec<String> = Vec::new();
        let mut i: usize = 0;
        while i < self.pause_authorities.entries.len()
            invariant
                i <= self.pause_authorities.size(),
                out@ == self.pause_authorities.values().take(i as int),
            decreases self.pause_authorities.size() - i,
        {
            out.push(self.pause_authorities.entries[i].1.clone());
            assert(self.pause_authorities.values().take(i + 1) =~= self.pause_authorities.values().take(i as int).push(
                self.pause_authorities.val_at(i as int),
            ));
            i = i + 1;
        }
        assert(self.pause_authorities.values().take(i as int) =~= self.pause_authorities.values());
        out
    }

    /// The number of paused pair keys.
    pub fn query_paused_pairs_count(&self) -> (r: u32)
        requires
            self.paused.size() <= u32::MAX,
        ensures
            r == self.paused.size(),
    {
        self.paused.len() as u32
    }
}

proof fn lemma_first_invalid_none(addrs: Seq<(String, Checked)>, i: int)
    requires
        first_invalid(addrs) is None,
        0 <= i < addrs.len(),
    ensures
        addrs[i].1 is Ok,
        valid_addrs(addrs)[i] == addrs[i].1->Ok_0,
    decreases i,
{
    if i > 0 {
        lemma_first_invalid_none(addrs.drop_first(), i - 1);
        assert(addrs.drop_first()[i - 1] == addrs[i]);
    }
}

} // verus!
