//! Ownership transfer of the factory, and the migration of pair keys.
use vstd::prelude::*;
use vstd::string::*;
use crate::asset::{AssetInfo, PairType};
use crate::error::{Checked, StdError};
use crate::factory::types::{Config, ContractError, Factory, FactoryMsg, FactoryState};
use crate::factory::settings::contract_name;
use crate::keys::{pair_key, pair_key_spec};
use crate::ownership::{propose_error, claim_error, propose_new_owner, drop_ownership_proposal,
    claim_ownership, OwnershipProposal, MAX_PROPOSAL_TTL};
use crate::response::Response;
use crate::bytes::{lex_lt, lemma_lex_lt_irreflexive};
use crate::factory::order::{key_pos, lemma_lists_once_remove, lemma_lists_once_update, remove_key, replace_key};

verus! {

/// What an ownership proposal does: the factory goes from `old` to `new` and answers `r`.
pub open spec fn propose_outcome(
    old: Factory,
    new: Factory,
    sender: String,
    new_owner: Checked,
    expires_in: u64,
    now: u64,
    r: Result<Response<FactoryMsg>, ContractError>,
) -> bool {
    &&& (match propose_error(sender@, old.config.owner@, new_owner, expires_in) {
        Some(msg) => r matches Err(ContractError::Std(e)) && e.text@ == msg && new == old,
        None => r matches Ok(resp) && new.state() =~= (FactoryState {
            proposal: Some(OwnershipProposal { owner: new_owner->Ok_0, ttl: (now + expires_in) as u64 }),
            ..old.state()
        }) && resp.messages@.len() == 0 && resp.attrs() =~= seq![
            ("action"@, "propose_new_owner"@),
            ("new_owner"@, new_owner->Ok_0@),
        ],
    })
}

/// What withdrawing the ownership proposal does: the factory goes from `old` to `new` and answers `r`.
pub open spec fn drop_outcome(
    old: Factory,
    new: Factory,
    sender: String,
    r: Result<Response<FactoryMsg>, ContractError>,
) -> bool {
    &&& (sender@ != old.config.owner@ ==> (r matches Err(ContractError::Std(e))
        && e.text@ == crate::error::generic_text("Unauthorized"@) && new == old))
    &&& (sender@ == old.config.owner@ ==> (r matches Ok(resp) && new.state() =~= (FactoryState {
        proposal: None,
        ..old.state()
    }) && resp.messages@.len() == 0 && resp.attrs() =~= seq![("action"@, "drop_ownership_proposal"@)]))
}

/// What claiming ownership does: the factory goes from `old` to `new` and answers `r`.
pub open spec fn claim_outcome(
    old: Factory,
    new: Factory,
    sender: String,
    now: u64,
    r: Result<Response<FactoryMsg>, ContractError>,
) -> bool {
    &&& (match claim_error(old.ownership_proposal, sender@, now) {
        Some(msg) => r matches Err(ContractError::Std(e)) && e.text@ == msg && new == old,
        None => r matches Ok(resp) && new.state() =~= (FactoryState {
            config: Config { owner: old.ownership_proposal->Some_0.owner, ..old.config },
            proposal: None,
            ..old.state()
        }) && resp.messages@.len() == 0 && resp.attrs() =~= seq![
            ("action"@, "claim_ownership"@),
            ("new_owner"@, old.ownership_proposal->Some_0.owner@),
        ],
    })
}

impl Factory {
    /// The owner proposes `new_owner` as the next owner, open until
    /// `now + expires_in` (at most two weeks from now).
    pub fn propose_new_owner(&mut self, sender: &String, new_owner: Checked, expires_in: u64, now: u64) -> (r: Result<Response<FactoryMsg>, ContractError>)
        requires
            old(self).wf(),
            expires_in <= MAX_PROPOSAL_TTL ==> now + expires_in <= u64::MAX,
        ensures
            final(self).wf(),
            propose_outcome(*old(self), *final(self), *sender, new_owner, expires_in, now, r),
    {
        let owner = self.config.owner.clone();
        match propose_new_owner(&mut self.ownership_proposal, sender, &owner, new_owner, expires_in, now) {
            Ok(resp) => Ok(resp),
            Err(e) => Err(ContractError::Std(e)),
        }
    }

    /// The owner withdraws the pending ownership proposal.
    pub fn drop_ownership_proposal(&mut self, sender: &String) -> (r: Result<Response<FactoryMsg>, ContractError>)
        requires
            old(self).wf(),
        ensures
            final(self).wf(),
            drop_outcome(*old(self), *final(self), *sender, r),
    {
        let owner = self.config.owner.clone();
        match drop_ownership_proposal(&mut self.ownership_proposal, sender, &owner) {
            Ok(resp) => Ok(resp),
            Err(e) => Err(ContractError::Std(e)),
        }
    }

    /// The proposed owner claims ownership at time `now`, before the proposal
    /// expires, and becomes the owner.
    pub fn claim_ownership(&mut self, sender: &String, now: u64) -> (r: Result<Response<FactoryMsg>, ContractError>)
        requires
            old(self).wf(),
        ensures
            final(self).wf(),
            claim_outcome(*old(self), *final(self), *sender, now, r),
    {
        match claim_ownership(&mut self.ownership_proposal, sender, now) {
            Ok((new_owner, resp)) => {
                self.config.owner = new_owner;
                Ok(resp)
            },
            Err(e) => Err(ContractError::Std(e)),
        }
    }
}

/// The key that each pair should be stored under, from what its contract
/// reports of its assets and pair type.
pub open spec fn expected_keys(infos: Seq<(Vec<AssetInfo>, PairType)>) -> Seq<Seq<u8>> {
    infos.map_values(|i: (Vec<AssetInfo>, PairType)| pair_key_spec(i.0@, i.1))
}

/// The pairs and their creation order after moving, one after the other,
/// each stored pair whose key differs from its expected key to that key; and
/// the addresses of the moved pairs. A pair moved onto a key that is already
/// stored replaces the pair there and leaves the creation order; otherwise it
/// keeps its place in it, under its new key.
pub open spec fn migrated(
    pairs: Map<Seq<u8>, String>,
    order: Seq<Seq<u8>>,
    entries: Seq<(Seq<u8>, String)>,
    expected: Seq<Seq<u8>>,
) -> (Map<Seq<u8>, String>, Seq<Seq<u8>>, Seq<String>)
    decreases entries.len(),
{
    if entries.len() == 0 {
        (pairs, order, Seq::empty())
    } else {
        let (m, o, moved) = migrated(pairs, order, entries.drop_last(), expected);
        let (raw, addr) = entries.last();
        let key = expected[entries.len() - 1];
        if raw == key {
            (m, o, moved)
        } else if m.contains_key(key) {
            (m.insert(key, addr).remove(raw), o.remove(key_pos(o, raw)), moved.push(addr))
        } else {
            (m.insert(key, addr).remove(raw), o.update(key_pos(o, raw), key), moved.push(addr))
        }
    }
}

/// The stored pairs as keys and addresses, in key order.
pub open spec fn stored_pairs(f: Factory) -> Seq<(Seq<u8>, String)> {
    f.pairs.entries@.map_values(|e: (Vec<u8>, String)| (e.0@, e.1))
}

/// The attributes of a migration.
pub open spec fn migrate_attrs(prev_name: Seq<char>, prev_version: Seq<char>, new_version: Seq<char>, moved: Seq<String>) -> Seq<(Seq<char>, Seq<char>)> {
    seq![
        ("previous_contract_name"@, prev_name),
        ("previous_contract_version"@, prev_version),
        ("new_contract_name"@, contract_name()),
        ("new_contract_version"@, new_version),
    ] + moved.map_values(|a: String| ("migrated_pair"@, a@))
}

impl Factory {
    /// Moves every pair stored under a key other than the one its assets and
    /// pair type give to that key. `infos[i]` is what the `i`-th stored pair (in
    /// key order) reports of its assets and pair type; the previous contract
    /// name and version are recorded in the response.
    pub fn migrate(
        &mut self,
        infos: &Vec<(Vec<AssetInfo>, PairType)>,
        prev_name: String,
        prev_version: String,
        new_version: String,
    ) -> (resp: Response<FactoryMsg>)
        requires
            old(self).wf(),
            infos@.len() == old(self).pairs.size(),
        ensures
            final(self).wf(),
            final(self).state() == (FactoryState {
                pairs: migrated(old(self).state().pairs, old(self).state().order, stored_pairs(*old(self)), expected_keys(infos@)).0,
                order: migrated(old(self).state().pairs, old(self).state().order, stored_pairs(*old(self)), expected_keys(infos@)).1,
                ..old(self).state()
            }),
            resp.messages@.len() == 0,
            resp.attrs() == migrate_attrs(prev_name@, prev_version@, new_version@,
                migrated(old(self).state().pairs, old(self).state().order, stored_pairs(*old(self)), expected_keys(infos@)).2),
    {
        let ghost entries = stored_pairs(*self);
        let ghost expected = expected_keys(infos@);
        let ghost m0 = self.state().pairs;
        let ghost o0 = self.state().order;
        let n = self.pairs.len();
        proof {
            assert forall|a: int, b: int| 0 <= a < b < n implies #[trigger] entries[a].0 != #[trigger] entries[b].0 by {
                assert(lex_lt(self.pairs.key_at(a), self.pairs.key_at(b)));
                lemma_lex_lt_irreflexive(self.pairs.key_at(a));
            }
            assert forall|k: int| 0 <= k < n implies m0.contains_key(#[trigger] entries[k].0) by {
                assert(self.pairs.key_at(k) == entries[k].0);
            }
        }
        let mut snapshot: Vec<(Vec<u8>, String)> = Vec::new();
        let mut i: usize = 0;
        while i < n
            invariant
                n == self.pairs.size(),
                i <= n,
                entries == stored_pairs(*self),
                snapshot@.len() == i,
                forall|k: int| 0 <= k < i ==> (#[trigger] snapshot@[k]).0@ == entries[k].0 && snapshot@[k].1 == entries[k].1,
            decreases n - i,
        {
            snapshot.push((vstd::slice::slice_to_vec(self.pairs.entries[i].0.as_slice()), self.pairs.entries[i].1.clone()));
            i = i + 1;
        }
        let mut resp = Response::new();
        resp.add_attribute("previous_contract_name", prev_name);
        resp.add_attribute("previous_contract_version", prev_version);
        resp.add_attribute("new_contract_name", String::from_str("oroswap-factory"));
        resp.add_attribute("new_contract_version", new_version);
        let ghost head = resp.attrs();
        let mut moved: Vec<String> = Vec::new();
        let mut j: usize = 0;
        while j < n
            invariant
                self.wf(),
                n == snapshot@.len(),
                n == infos@.len(),
                n == entries.len(),
                expected == expected_keys(infos@),
                j <= n,
                forall|k: int| 0 <= k < n ==> (#[trigger] snapshot@[k]).0@ == entries[k].0 && snapshot@[k].1 == entries[k].1,
                self.paused == old(self).paused,
                self.pause_authorities == old(self).pause_authorities,
                self.pair_configs == old(self).pair_configs,
                self.config == old(self).config,
                self.tracker_config == old(self).tracker_config,
                self.tmp_pair_info == old(self).tmp_pair_info,
                self.ownership_proposal == old(self).ownership_proposal,
                m0 == old(self).state().pairs,
                o0 == old(self).state().order,
                forall|a: int, b: int| 0 <= a < b < n ==> #[trigger] entries[a].0 != #[trigger] entries[b].0,
                forall|k: int| j <= k < n ==> self.state().pairs.contains_key(#[trigger] entries[k].0),
                (self.state().pairs, self.state().order, moved@) == migrated(m0, o0, entries.take(j as int), expected),
                resp.messages@.len() == 0,
                resp.attrs() == head + moved@.map_values(|a: String| ("migrated_pair"@, a@)),
            decreases n - j,
        {
            let key = pair_key(&infos[j].0, &infos[j].1);
            let raw = &snapshot[j].0;
            proof {
                assert(entries.take(j + 1).drop_last() =~= entries.take(j as int));
                assert(entries.take(j + 1).last() == entries[j as int]);
                assert(key@ == expected[j as int]);
            }
            let same = match crate::bytes::compare_bytes(raw.as_slice(), key.as_slice()) {
                crate::bytes::KeyOrder::Same => true,
                _ => false,
            };
            if !same {
                let addr = snapshot[j].1.clone();
                let ghost before = self.state();
                let ghost dom0 = self.pairs.map().dom();
                let present = self.pairs.contains(&key);
                let listed = vstd::slice::slice_to_vec(key.as_slice());
                proof {
                    assert(entries[j as int].0 == raw@);
                    if present {
                        lemma_lists_once_remove(before.order, dom0, raw@);
                    } else {
                        lemma_lists_once_update(before.order, dom0, raw@, key@);
                    }
                }
                self.pairs.insert(key, addr.clone());
                self.pairs.remove(raw);
                if present {
                    remove_key(&mut self.pair_order, raw);
                    assert(self.pairs.map().dom() =~= dom0.remove(raw@));
                } else {
                    replace_key(&mut self.pair_order, raw, listed);
                    assert(self.pairs.map().dom() =~= dom0.insert(listed@).remove(raw@));
                }
                let ghost moved_before = moved@;
                moved.push(addr.clone());
                resp.add_attribute("migrated_pair", addr);
                proof {
                    assert(moved@.map_values(|a: String| ("migrated_pair"@, a@)) =~= moved_before.map_values(
                        |a: String| ("migrated_pair"@, a@),
                    ).push(("migrated_pair"@, moved@.last()@)));
                }
            }
            j = j + 1;
        }
        assert(entries.take(n as int) =~= entries);
        resp
    }
}

/// Migrating a factory whose pairs are all stored under the keys their
/// assets and pair types give changes nothing and moves no pair: migration
/// run a second time does nothing.
pub proof fn lemma_migration_idempotent(pairs: Map<Seq<u8>, String>, order: Seq<Seq<u8>>, entries: Seq<(Seq<u8>, String)>, expected: Seq<Seq<u8>>)
    requires
        expected.len() == entries.len(),
        forall|i: int| 0 <= i < entries.len() ==> #[trigger] entries[i].0 == expected[i],
    ensures
        migrated(pairs, order, entries, expected) == (pairs, order, Seq::<String>::empty()),
    decreases entries.len(),
{
    if entries.len() > 0 {
        let e = entries.drop_last();
        assert forall|i: int| 0 <= i < e.len() implies #[trigger] e[i].0 == expected.take(e.len() as int)[i] by {
            assert(e[i] == entries[i]);
        }
        lemma_migration_idempotent(pairs, order, e, expected.take(e.len() as int));
        lemma_migrated_prefix(pairs, order, e, expected);
    }
}

/// Only the first `entries.len()` expected keys matter.
proof fn lemma_migrated_prefix(pairs: Map<Seq<u8>, String>, order: Seq<Seq<u8>>, entries: Seq<(Seq<u8>, String)>, expected: Seq<Seq<u8>>)
    requires
        entries.len() <= expected.len(),
    ensures
        migrated(pairs, order, entries, expected) == migrated(pairs, order, entries, expected.take(entries.len() as int)),
    decreases entries.len(),
{
    if entries.len() > 0 {
        lemma_migrated_prefix(pairs, order, entries.drop_last(), expected);
        lemma_migrated_prefix(pairs, order, entries.drop_last(), expected.take(entries.len() as int));
        assert(expected.take(entries.len() as int).take(entries.len() - 1) =~= expected.take(entries.len() - 1));
    }
}

/// The pairs that `entries` list, keyed and valued as listed.
pub open spec fn holds_entries(m: Map<Seq<u8>, String>, entries: Seq<(Seq<u8>, String)>) -> bool {
    &&& forall|k: Seq<u8>| #[trigger] m.contains_key(k) ==> exists|i: int| 0 <= i < entries.len() && entries[i].0 == k
    &&& forall|i: int| 0 <= i < entries.len() ==> m.contains_key(#[trigger] entries[i].0) && m[entries[i].0] == entries[i].1
}

/// No two entries share a key, no two pairs expect the same key, and no pair
/// expects the key under which a later pair is stored.
pub open spec fn keys_apart(entries: Seq<(Seq<u8>, String)>, expected: Seq<Seq<u8>>) -> bool {
    &&& entries.len() == expected.len()
    &&& forall|i: int, j: int| 0 <= i < entries.len() && 0 <= j < entries.len() && i != j ==> {
        &&& #[trigger] entries[i].0 != #[trigger] entries[j].0
        &&& expected[i] != expected[j]
        &&& (i < j ==> expected[i] != entries[j].0)
    }
}

/// After the first `t` entries are migrated, those pairs are under their
/// expected keys, the others still under their stored keys, and nothing else
/// is stored.
proof fn lemma_migration_step(
    pairs: Map<Seq<u8>, String>,
    order: Seq<Seq<u8>>,
    entries: Seq<(Seq<u8>, String)>,
    expected: Seq<Seq<u8>>,
    t: int,
)
    requires
        holds_entries(pairs, entries),
        keys_apart(entries, expected),
        0 <= t <= entries.len(),
    ensures
        ({
            let m = migrated(pairs, order, entries.take(t), expected).0;
            &&& forall|i: int| 0 <= i < t ==> m.contains_key(#[trigger] expected[i]) && m[expected[i]] == entries[i].1
            &&& forall|i: int| t <= i < entries.len() ==> m.contains_key(#[trigger] entries[i].0) && m[entries[i].0] == entries[i].1
            &&& forall|k: Seq<u8>| #[trigger] m.contains_key(k) ==> (exists|i: int| 0 <= i < t && expected[i] == k)
                || (exists|i: int| t <= i < entries.len() && entries[i].0 == k)
        }),
    decreases t,
{
    if t == 0 {
        assert(entries.take(0) =~= Seq::<(Seq<u8>, String)>::empty());
    } else {
        lemma_migration_step(pairs, order, entries, expected, t - 1);
        assert(entries.take(t).drop_last() =~= entries.take(t - 1));
        assert(entries.take(t).last() == entries[t - 1]);
        let m0 = migrated(pairs, order, entries.take(t - 1), expected).0;
        let m = migrated(pairs, order, entries.take(t), expected).0;
        let raw = entries[t - 1].0;
        let key = expected[t - 1];
        if raw != key {
            assert(m == m0.insert(key, entries[t - 1].1).remove(raw));
            assert forall|i: int| 0 <= i < t implies m.contains_key(#[trigger] expected[i]) && m[expected[i]] == entries[i].1 by {
                if i < t - 1 {
                    assert(entries[i].0 != entries[t - 1].0);
                }
            }
            assert forall|i: int| t <= i < entries.len() implies m.contains_key(#[trigger] entries[i].0) && m[entries[i].0] == entries[i].1 by {
                assert(entries[i].0 != entries[t - 1].0);
            }
            assert forall|k: Seq<u8>| #[trigger] m.contains_key(k) implies (exists|i: int| 0 <= i < t && expected[i] == k)
                || (exists|i: int| t <= i < entries.len() && entries[i].0 == k) by {
                if k != key {
                    assert(m0.contains_key(k));
                    if !(exists|i: int| 0 <= i < t - 1 && expected[i] == k) {
                        let i = choose|i: int| t - 1 <= i < entries.len() && entries[i].0 == k;
                        assert(i != t - 1);
                    }
                }
            }
        } else {
            assert forall|i: int| 0 <= i < t implies m.contains_key(#[trigger] expected[i]) && m[expected[i]] == entries[i].1 by {
                if i == t - 1 {
                    assert(m0.contains_key(entries[t - 1].0));
                }
            }
            assert forall|k: Seq<u8>| #[trigger] m.contains_key(k) implies (exists|i: int| 0 <= i < t && expected[i] == k)
                || (exists|i: int| t <= i < entries.len() && entries[i].0 == k) by {
                if !(exists|i: int| 0 <= i < t - 1 && expected[i] == k) {
                    let i = choose|i: int| t - 1 <= i < entries.len() && entries[i].0 == k;
                    if i == t - 1 {
                        assert(expected[t - 1] == k);
                    }
                }
            }
        }
    }
}

/// When no two pairs give the same key and no pair gives the key under which
/// a pair later in key order is stored (moving it there first would overwrite
/// that pair, which then moves away and takes the entry with it), one
/// migration leaves every pair under the key that its assets and pair type
/// give, with its address, stores nothing else, and keeps the set of pair
/// addresses.
pub proof fn lemma_migration_places_every_pair(f: Factory, infos: Seq<(Vec<AssetInfo>, PairType)>)
    requires
        f.wf(),
        infos.len() == f.pairs.size(),
        forall|i: int, j: int| 0 <= i < infos.len() && 0 <= j < infos.len() && i != j ==> {
            &&& #[trigger] expected_keys(infos)[i] != #[trigger] expected_keys(infos)[j]
            &&& (i < j ==> expected_keys(infos)[i] != f.pairs.key_at(j))
        },
    ensures
        ({
            let m = migrated(f.state().pairs, f.state().order, stored_pairs(f), expected_keys(infos)).0;
            &&& forall|i: int| 0 <= i < infos.len() ==> m.contains_key(#[trigger] expected_keys(infos)[i])
                && m[expected_keys(infos)[i]] == f.pairs.val_at(i)
            &&& forall|k: Seq<u8>| #[trigger] m.contains_key(k) ==> exists|i: int| 0 <= i < infos.len() && expected_keys(infos)[i] == k
            &&& m.values() == f.state().pairs.values()
        }),
{
    let es = stored_pairs(f);
    let ex = expected_keys(infos);
    let m0 = f.state().pairs;
    let n = es.len() as int;
    assert forall|i: int, j: int| 0 <= i < n && 0 <= j < n && i != j implies #[trigger] es[i].0 != #[trigger] es[j].0 by {
        lemma_lex_lt_irreflexive(f.pairs.key_at(i));
        if i < j {
            assert(lex_lt(f.pairs.key_at(i), f.pairs.key_at(j)));
        } else {
            assert(lex_lt(f.pairs.key_at(j), f.pairs.key_at(i)));
        }
    }
    assert(keys_apart(es, ex)) by {
        assert forall|i: int, j: int| 0 <= i < n && 0 <= j < n && i != j implies {
            &&& #[trigger] es[i].0 != #[trigger] es[j].0
            &&& ex[i] != ex[j]
            &&& (i < j ==> ex[i] != es[j].0)
        } by {
            assert(ex[i] != ex[j]);
            assert(es[j].0 == f.pairs.key_at(j));
        }
    }
    assert forall|i: int| 0 <= i < n implies m0.contains_key(#[trigger] es[i].0) && m0[es[i].0] == es[i].1 by {
        assert(f.pairs.key_at(i) == es[i].0);
        let j = f.pairs.index_of(es[i].0);
        assert(0 <= j < n && f.pairs.key_at(j) == es[i].0);
        assert(es[j].0 == es[i].0);
    }
    assert forall|k: Seq<u8>| #[trigger] m0.contains_key(k) implies exists|i: int| 0 <= i < n && es[i].0 == k by {
        let i = choose|i: int| 0 <= i < f.pairs.size() && #[trigger] f.pairs.key_at(i) == k;
        assert(es[i].0 == k);
    }
    lemma_migration_step(m0, f.state().order, es, ex, n);
    assert(es.take(n) =~= es);
    let m = migrated(m0, f.state().order, es, ex).0;
    assert forall|i: int| 0 <= i < infos.len() implies m.contains_key(#[trigger] ex[i]) && m[ex[i]] == f.pairs.val_at(i) by {
        assert(es[i].1 == f.pairs.val_at(i));
    }
    assert forall|a: String| #[trigger] m.values().contains(a) <==> m0.values().contains(a) by {
        if m.values().contains(a) {
            let k = choose|k: Seq<u8>| #[trigger] m.dom().contains(k) && m[k] == a;
            let i = choose|i: int| 0 <= i < n && ex[i] == k;
            assert(m0.dom().contains(es[i].0) && m0[es[i].0] == a);
        }
        if m0.values().contains(a) {
            let k = choose|k: Seq<u8>| #[trigger] m0.dom().contains(k) && m0[k] == a;
            let i = choose|i: int| 0 <= i < n && es[i].0 == k;
            assert(m.dom().contains(ex[i]) && m[ex[i]] == a);
        }
    }
    assert(m.values() =~= m0.values());
}

/// Migrating a second time, right after a migration that placed every pair,
/// changes neither the pairs nor their creation order and moves no pair,
/// when each pair contract reports the same assets and pair type both times
/// (`info_of` gives what the pair at an address reports).
pub proof fn lemma_second_migration_changes_nothing(
    f0: Factory,
    f1: Factory,
    info_of: spec_fn(String) -> (Vec<AssetInfo>, PairType),
    infos0: Seq<(Vec<AssetInfo>, PairType)>,
    infos1: Seq<(Vec<AssetInfo>, PairType)>,
)
    requires
        f0.wf(),
        f1.wf(),
        infos0.len() == f0.pairs.size(),
        forall|i: int| 0 <= i < infos0.len() ==> #[trigger] infos0[i] == info_of(f0.pairs.val_at(i)),
        forall|i: int, j: int| 0 <= i < infos0.len() && 0 <= j < infos0.len() && i != j ==> {
            &&& #[trigger] expected_keys(infos0)[i] != #[trigger] expected_keys(infos0)[j]
            &&& (i < j ==> expected_keys(infos0)[i] != f0.pairs.key_at(j))
        },
        f1.state().pairs == migrated(f0.state().pairs, f0.state().order, stored_pairs(f0), expected_keys(infos0)).0,
        infos1.len() == f1.pairs.size(),
        forall|i: int| 0 <= i < infos1.len() ==> #[trigger] infos1[i] == info_of(f1.pairs.val_at(i)),
    ensures
        migrated(f1.state().pairs, f1.state().order, stored_pairs(f1), expected_keys(infos1))
            == (f1.state().pairs, f1.state().order, Seq::<String>::empty()),
{
    lemma_migration_places_every_pair(f0, infos0);
    let m = f1.state().pairs;
    let ex0 = expected_keys(infos0);
    let ex1 = expected_keys(infos1);
    let es1 = stored_pairs(f1);
    assert forall|i: int| 0 <= i < es1.len() implies #[trigger] es1[i].0 == ex1[i] by {
        let k = f1.pairs.key_at(i);
        f1.pairs.lemma_index_unique(i, k);
        assert(m.contains_key(k) && m[k] == f1.pairs.val_at(i));
        let j = choose|j: int| 0 <= j < infos0.len() && ex0[j] == k;
        assert(m[ex0[j]] == f0.pairs.val_at(j));
        assert(infos1[i] == info_of(f0.pairs.val_at(j)));
        assert(infos0[j] == infos1[i]);
        assert(ex1[i] == ex0[j]);
    }
    lemma_migration_idempotent(m, f1.state().order, es1, ex1);
}

} // verus!
