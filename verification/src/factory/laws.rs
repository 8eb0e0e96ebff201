//! Properties of the factory that span its operations.
use vstd::prelude::*;
use crate::asset::{AssetInfo, PairType, utf8};
use crate::asset::Coin;
use crate::factory::execute::{execute_outcome, same_answer};
use crate::factory::types::{ContractError, ExecuteMsg, Factory, FactoryMsg, FactoryState, InstantiateMsg, PairConfig,
    UpdateConfig, config_key};
use crate::factory::settings::{blacklisted, instantiate_error, instantiated_state, update_config_outcome,
    tracker_config_outcome, update_pair_config_outcome};
use crate::factory::pairs::{effective_limit, pairs_of_types, pairs_page};
use crate::factory::order::lemma_key_pos;
use crate::factory::checks::lemma_configs_map_holds_each;
use crate::response::Response;
use crate::factory::pairs::{pending_state, registered_state};
use crate::factory::pausing::{pause_error, unpause_error, paused_state, unpaused_state, can_pause,
    can_unpause, pause_pair_outcome, unpause_pair_outcome, batch_to_pause, batch_to_unpause, pause_batch_outcome, unpause_batch_outcome, batch_limit, unpaused_entries, pair_entries, entry_keys, first_n,
    add_authorities, remove_authorities};
use crate::keys::pair_key_spec;
use crate::error::StdError;
use crate::factory::checks::has_asset_error;
use crate::ordered::ByteMap;
use crate::bytes::{lex_lt, lemma_lex_lt_irreflexive};

verus! {

/// A pair whose creation was started and whose instantiation reply registered
/// it at `addr` is found under its assets and pair type, at `addr`; and since
/// its key stays pending and is now stored, a second reply is refused.
pub proof fn lemma_created_pair_is_found(s: FactoryState, assets: Seq<AssetInfo>, pair_type: PairType, addr: String)
    ensures
        ({
            let t = registered_state(pending_state(s, pair_key_spec(assets, pair_type)), addr);
            &&& t.pairs.contains_key(pair_key_spec(assets, pair_type))
            &&& t.pairs[pair_key_spec(assets, pair_type)] == addr
            &&& t.tmp_key == Some(pair_key_spec(assets, pair_type))
            &&& t.pairs.contains_key(t.tmp_key->Some_0)
        }),
{
}

/// Pausing a pair and then unpausing it restores the factory's state, and the
/// owner may always undo a pause that succeeded.
pub proof fn lemma_pause_then_unpause(s: FactoryState, sender: Seq<char>, key: Seq<u8>)
    requires
        pause_error(s, sender, key) is None,
    ensures
        unpause_error(paused_state(s, key), s.config.owner@, key) is None,
        unpaused_state(paused_state(s, key), key) == s,
{
    assert(paused_state(s, key).paused.remove(key) =~= s.paused);
}

/// Unpausing a pair and pausing it again restores the factory's state.
pub proof fn lemma_unpause_then_pause(s: FactoryState, key: Seq<u8>)
    requires
        unpause_error(s, s.config.owner@, key) is None,
    ensures
        pause_error(unpaused_state(s, key), s.config.owner@, key) is None,
        paused_state(unpaused_state(s, key), key) == s,
{
    assert(unpaused_state(s, key).paused.insert(key) =~= s.paused);
}

/// A pair cannot be paused twice in a row.
pub proof fn lemma_pause_twice_refused(s: FactoryState, sender: Seq<char>, key: Seq<u8>)
    requires
        pause_error(s, sender, key) is None,
    ensures
        pause_error(paused_state(s, key), sender, key) is Some,
{
}

/// Only the owner can unpause; a pause authority that is not the owner can
/// pause but never unpause.
pub proof fn lemma_only_owner_unpauses(s: FactoryState, sender: Seq<char>, key: Seq<u8>)
    ensures
        unpause_error(s, sender, key) is None ==> sender == s.config.owner@,
        s.authorities.contains_key(utf8(sender)) ==> can_pause(s, sender),
        sender != s.config.owner@ ==> !can_unpause(s, sender),
{
}

/// A batch pause that may handle as many pairs as are unpaused leaves every
/// stored pair paused.
pub proof fn lemma_batch_pause_covers_all(f: Factory, batch_size: Option<u32>, key: Seq<u8>)
    requires
        f.wf(),
        batch_limit(batch_size) >= unpaused_entries(pair_entries(f), f.state().paused).len(),
        f.state().pairs.contains_key(key),
    ensures
        f.state().paused.union(entry_keys(batch_to_pause(f, batch_size)).to_set()).contains(key),
{
    let es = pair_entries(f);
    let pred = |e: (Seq<u8>, String)| !f.state().paused.contains(e.0);
    if !f.state().paused.contains(key) {
        let i = choose|i: int| 0 <= i < f.pairs.size() && #[trigger] f.pairs.key_at(i) == key;
        assert(es[i].0 == key);
        es.lemma_filter_contains(pred, i);
        let u = unpaused_entries(es, f.state().paused);
        assert(batch_to_pause(f, batch_size) == u);
        assert(u.contains(es[i]));
        let j = choose|j: int| 0 <= j < u.len() && u[j] == es[i];
        assert(entry_keys(u)[j] == key);
    }
}

/// Every address added as a pause authority has pause authority afterwards.
pub proof fn lemma_added_authorities_can_pause(m: Map<Seq<u8>, String>, addrs: Seq<String>, i: int)
    requires
        0 <= i < addrs.len(),
    ensures
        add_authorities(m, addrs).0.contains_key(utf8(addrs[i]@)),
    decreases addrs.len(),
{
    if i < addrs.len() - 1 {
        lemma_added_authorities_can_pause(m, addrs.drop_last(), i);
        assert(addrs.drop_last()[i] == addrs[i]);
    }
}

/// Every address removed from the pause authorities has none afterwards.
pub proof fn lemma_removed_authorities_cannot_pause(m: Map<Seq<u8>, String>, addrs: Seq<String>, i: int)
    requires
        0 <= i < addrs.len(),
    ensures
        !remove_authorities(m, addrs).0.contains_key(utf8(addrs[i]@)),
    decreases addrs.len(),
{
    if i < addrs.len() - 1 {
        lemma_removed_authorities_cannot_pause(m, addrs.drop_last(), i);
        assert(addrs.drop_last()[i] == addrs[i]);
        lemma_remove_keeps_absent(m, addrs.drop_last(), utf8(addrs[i]@));
    }
}

/// Removing addresses never adds one.
proof fn lemma_remove_keeps_absent(m: Map<Seq<u8>, String>, addrs: Seq<String>, k: Seq<u8>)
    requires
        !remove_authorities(m, addrs).0.contains_key(k),
    ensures
        forall|a: String| !#[trigger] remove_authorities(m, addrs.push(a)).0.contains_key(k),
{
    assert forall|a: String| !#[trigger] remove_authorities(m, addrs.push(a)).0.contains_key(k) by {
        assert(addrs.push(a).drop_last() =~= addrs);
    }
}

/// The keys of a map kept in ascending order are distinct, and they are the
/// keys of the map it stands for.
proof fn lemma_keys_distinct<V>(m: ByteMap<V>)
    requires
        m.wf(),
    ensures
        m.keys().no_duplicates(),
        m.keys().to_set() == m.map().dom(),
{
    assert forall|i: int, j: int| 0 <= i < m.keys().len() && 0 <= j < m.keys().len() && i != j
        implies m.keys()[i] != m.keys()[j] by {
        assert(m.keys()[i] == m.key_at(i) && m.keys()[j] == m.key_at(j));
        lemma_lex_lt_irreflexive(m.key_at(i));
        if i < j {
            assert(lex_lt(m.key_at(i), m.key_at(j)));
        } else {
            assert(lex_lt(m.key_at(j), m.key_at(i)));
        }
    };
    assert forall|k: Seq<u8>| m.keys().to_set().contains(k) <==> m.map().dom().contains(k) by {
        if m.keys().contains(k) {
            let i = choose|i: int| 0 <= i < m.keys().len() && m.keys()[i] == k;
            assert(m.key_at(i) == k);
        }
        if m.has(k) {
            let i = choose|i: int| 0 <= i < m.size() && #[trigger] m.key_at(i) == k;
            assert(m.keys()[i] == k);
        }
    };
    assert(m.keys().to_set() =~= m.map().dom());
}

/// Of entries with distinct keys, those whose key is not in `p` and those
/// whose key is in `p` add up to all of them.
proof fn lemma_count_split(es: Seq<(Seq<u8>, String)>, p: Set<Seq<u8>>)
    requires
        entry_keys(es).no_duplicates(),
    ensures
        unpaused_entries(es, p).len() + entry_keys(es).to_set().intersect(p).len() == es.len(),
    decreases es.len(),
{
    broadcast use vstd::set::group_set_axioms, vstd::seq_lib::group_seq_properties;
    let ks = entry_keys(es);
    if es.len() == 0 {
        assert(ks.to_set().intersect(p) =~= Set::<Seq<u8>>::empty());
        assert(unpaused_entries(es, p) =~= Seq::<(Seq<u8>, String)>::empty());
    } else {
        let es0 = es.drop_last();
        let e = es.last();
        let ks0 = entry_keys(es0);
        assert(es0.push(e) =~= es);
        assert(ks0 =~= ks.drop_last());
        assert(ks =~= ks0.push(e.0));
        assert forall|i: int, j: int| 0 <= i < ks0.len() && 0 <= j < ks0.len() && i != j implies ks0[i] != ks0[j] by {
            assert(ks0[i] == ks[i] && ks0[j] == ks[j]);
        };
        lemma_count_split(es0, p);
        let pred = |x: (Seq<u8>, String)| !p.contains(x.0);
        es0.lemma_filter_len_push(pred, e);
        assert(!ks0.contains(e.0)) by {
            if ks0.contains(e.0) {
                let i = choose|i: int| 0 <= i < ks0.len() && ks0[i] == e.0;
                assert(ks[i] == ks[ks.len() - 1]);
            }
        };
        assert(ks.to_set() =~= ks0.to_set().insert(e.0));
        if p.contains(e.0) {
            assert(ks.to_set().intersect(p) =~= ks0.to_set().intersect(p).insert(e.0));
        } else {
            assert(ks.to_set().intersect(p) =~= ks0.to_set().intersect(p));
        }
    }
}

/// When every paused key belongs to a stored pair, the `has_more` that a batch
/// pause answers is true exactly when some unpaused pair is left out of the
/// batch.
pub proof fn lemma_pause_batch_has_more(f: Factory, batch_size: Option<u32>)
    requires
        f.wf(),
        forall|k: Seq<u8>| f.state().paused.contains(k) ==> #[trigger] f.state().pairs.contains_key(k),
    ensures
        (f.pairs.size() > f.paused.size() + batch_to_pause(f, batch_size).len())
            <==> unpaused_entries(pair_entries(f), f.state().paused).len() > batch_to_pause(f, batch_size).len(),
{
    let es = pair_entries(f);
    let p = f.state().paused;
    lemma_keys_distinct(f.pairs);
    lemma_keys_distinct(f.paused);
    assert(entry_keys(es) =~= f.pairs.keys());
    lemma_count_split(es, p);
    assert forall|k: Seq<u8>| p.contains(k) implies entry_keys(es).to_set().contains(k) by {
        assert(f.state().pairs.contains_key(k));
        assert(f.pairs.map().dom().contains(k));
    };
    assert(entry_keys(es).to_set().intersect(p) =~= p);
    f.paused.keys().unique_seq_to_set();
}

/// Of all the calls, only deregistering changes the stored pairs (a pair is
/// added by the reply to its instantiation, not by a call); only claiming
/// ownership changes the owner; and only the four pause calls change which
/// pairs are paused.
pub proof fn lemma_calls_keep_what_they_do_not_own(
    old: Factory,
    new: Factory,
    sender: String,
    funds: Vec<Coin>,
    contract_addr: String,
    now: u64,
    msg: ExecuteMsg,
    r: Result<Response<FactoryMsg>, ContractError>,
)
    requires
        old.wf(),
        execute_outcome(old, new, sender, funds, contract_addr, now, msg, r),
    ensures
        !(msg is Deregister) ==> new.state().pairs == old.state().pairs,
        !(msg is ClaimOwnership) ==> new.config.owner == old.config.owner,
        !(msg is PausePair || msg is UnpausePair || msg is PausePairsBatch || msg is UnpausePairsBatch)
            ==> new.state().paused == old.state().paused,
{
}

/// Starting with no pair paused, a batch pause by anyone allowed to pause
/// whose batch covers every stored pair, followed by a batch unpause by the
/// owner whose batch covers them too, both succeed; afterwards no pair is
/// paused and the factory is as it was before the pause.
pub proof fn lemma_full_batch_unpause_undoes_pause(
    f0: Factory,
    f1: Factory,
    f2: Factory,
    pauser: String,
    pause_size: Option<u32>,
    unpause_size: Option<u32>,
    r1: Result<Response<FactoryMsg>, ContractError>,
    r2: Result<Response<FactoryMsg>, ContractError>,
)
    requires
        f0.wf(),
        f1.wf(),
        f0.state().paused == Set::<Seq<u8>>::empty(),
        can_pause(f0.state(), pauser@),
        batch_limit(pause_size) >= f0.pairs.size(),
        batch_limit(unpause_size) >= f0.pairs.size(),
        pause_batch_outcome(f0, f1, pauser, pause_size, r1),
        unpause_batch_outcome(f1, f2, f1.config.owner, unpause_size, r2),
    ensures
        r1 is Ok,
        r2 is Ok,
        f2.state().paused == Set::<Seq<u8>>::empty(),
        f2.state() == f0.state(),
{
    let es = pair_entries(f0);
    let p0 = f0.state().paused;
    let pred = |e: (Seq<u8>, String)| !p0.contains(e.0);
    let u = unpaused_entries(es, p0);
    es.lemma_filter_len(pred);
    assert(batch_to_pause(f0, pause_size) == u);
    let dom = f0.state().pairs.dom();
    assert forall|k: Seq<u8>| dom.contains(k) implies #[trigger] f1.state().paused.contains(k) by {
        lemma_batch_pause_covers_all(f0, pause_size, k);
    }
    assert forall|k: Seq<u8>| #[trigger] f1.state().paused.contains(k) implies dom.contains(k) by {
        assert(entry_keys(u).contains(k));
        let j = choose|j: int| 0 <= j < entry_keys(u).len() && entry_keys(u)[j] == k;
        assert(u.contains(u[j]));
        es.lemma_filter_contains_rev(pred, u[j]);
        let i = choose|i: int| 0 <= i < es.len() && es[i] == u[j];
        assert(f0.pairs.key_at(i) == k);
        assert(f0.pairs.has(k));
    }
    assert(f1.state().paused =~= dom);
    lemma_keys_distinct(f1.paused);
    lemma_keys_distinct(f0.pairs);
    f1.paused.keys().unique_seq_to_set();
    f0.pairs.keys().unique_seq_to_set();
    let ks = f1.paused.keys();
    assert(batch_to_unpause(f1, unpause_size) == ks);
    assert forall|i: int| 0 <= i < ks.len() implies f1.state().pairs.contains_key(#[trigger] ks[i]) by {
        assert(ks.to_set().contains(ks[i]));
    }
    assert(f1.state().paused.difference(ks.to_set()) =~= Set::<Seq<u8>>::empty());
    assert(f2.state() =~= f0.state());
}

/// The keys of some addresses.
pub open spec fn addr_keys(addrs: Seq<String>) -> Set<Seq<u8>> {
    addrs.map_values(|a: String| utf8(a@)).to_set()
}

proof fn lemma_addr_keys_push(addrs: Seq<String>, a: String)
    ensures
        addr_keys(addrs.push(a)) == addr_keys(addrs).insert(utf8(a@)),
        addr_keys(addrs).finite(),
{
    broadcast use vstd::seq_lib::group_seq_properties;
    assert(addrs.push(a).map_values(|a: String| utf8(a@)) =~= addrs.map_values(|a: String| utf8(a@)).push(utf8(a@)));
    addrs.map_values(|a: String| utf8(a@)).lemma_push_to_set_commute(utf8(a@));
    addrs.map_values(|a: String| utf8(a@)).lemma_cardinality_of_set();
}

/// Adding pause authorities: the authorities afterwards are those before
/// together with the added addresses, each one already there keeps its entry,
/// and the count answered is the number of added addresses that were not
/// there yet.
pub proof fn lemma_add_authorities_union(m: Map<Seq<u8>, String>, addrs: Seq<String>)
    ensures
        add_authorities(m, addrs).0.dom() == m.dom().union(addr_keys(addrs)),
        forall|k: Seq<u8>| #[trigger] m.contains_key(k) ==> add_authorities(m, addrs).0[k] == m[k],
        add_authorities(m, addrs).1 == addr_keys(addrs).difference(m.dom()).len(),
    decreases addrs.len(),
{
    broadcast use vstd::set::group_set_axioms;
    if addrs.len() == 0 {
        assert(addr_keys(addrs) =~= Set::<Seq<u8>>::empty());
        assert(m.dom().union(addr_keys(addrs)) =~= m.dom());
        assert(addr_keys(addrs).difference(m.dom()) =~= Set::<Seq<u8>>::empty());
    } else {
        let rest = addrs.drop_last();
        let a = addrs.last();
        let ka = utf8(a@);
        lemma_add_authorities_union(m, rest);
        lemma_addr_keys_push(rest, a);
        assert(rest.push(a) =~= addrs);
        let s0 = addr_keys(rest);
        let (m0, n0) = add_authorities(m, rest);
        if m0.contains_key(ka) {
            assert(m0.dom() =~= m.dom().union(addr_keys(addrs)));
            assert(addr_keys(addrs).difference(m.dom()) =~= s0.difference(m.dom()));
        } else {
            assert(m0.insert(ka, a).dom() =~= m.dom().union(addr_keys(addrs)));
            assert(addr_keys(addrs).difference(m.dom()) =~= s0.difference(m.dom()).insert(ka));
        }
    }
}

/// Adding pause authorities that are all there already changes nothing and
/// counts none.
proof fn lemma_add_present_authorities(m: Map<Seq<u8>, String>, addrs: Seq<String>)
    requires
        forall|i: int| 0 <= i < addrs.len() ==> m.contains_key(utf8(#[trigger] addrs[i]@)),
    ensures
        add_authorities(m, addrs) == (m, 0nat),
    decreases addrs.len(),
{
    if addrs.len() > 0 {
        let rest = addrs.drop_last();
        assert forall|i: int| 0 <= i < rest.len() implies m.contains_key(utf8(#[trigger] rest[i]@)) by {
            assert(rest[i] == addrs[i]);
        }
        lemma_add_present_authorities(m, rest);
        assert(m.contains_key(utf8(addrs[addrs.len() - 1]@)));
    }
}

/// Adding the same pause authorities a second time changes nothing and
/// counts none.
pub proof fn lemma_add_authorities_twice(m: Map<Seq<u8>, String>, addrs: Seq<String>)
    ensures
        add_authorities(add_authorities(m, addrs).0, addrs) == (add_authorities(m, addrs).0, 0nat),
{
    let m1 = add_authorities(m, addrs).0;
    assert forall|i: int| 0 <= i < addrs.len() implies m1.contains_key(utf8(#[trigger] addrs[i]@)) by {
        lemma_added_authorities_can_pause(m, addrs, i);
    }
    lemma_add_present_authorities(m1, addrs);
}

/// Removing pause authorities: the authorities afterwards are those before
/// without the removed addresses, and the count answered is the number of
/// removed addresses that were there.
pub proof fn lemma_remove_authorities_difference(m: Map<Seq<u8>, String>, addrs: Seq<String>)
    ensures
        remove_authorities(m, addrs).0 == m.remove_keys(addr_keys(addrs)),
        remove_authorities(m, addrs).1 == addr_keys(addrs).intersect(m.dom()).len(),
    decreases addrs.len(),
{
    broadcast use vstd::set::group_set_axioms;
    if addrs.len() == 0 {
        assert(addr_keys(addrs) =~= Set::<Seq<u8>>::empty());
        assert(m.remove_keys(addr_keys(addrs)) =~= m);
        assert(addr_keys(addrs).intersect(m.dom()) =~= Set::<Seq<u8>>::empty());
    } else {
        let rest = addrs.drop_last();
        let a = addrs.last();
        let ka = utf8(a@);
        lemma_remove_authorities_difference(m, rest);
        lemma_addr_keys_push(rest, a);
        assert(rest.push(a) =~= addrs);
        let s0 = addr_keys(rest);
        let (m0, n0) = remove_authorities(m, rest);
        if m0.contains_key(ka) {
            assert(m0.remove(ka) =~= m.remove_keys(addr_keys(addrs)));
            assert(addr_keys(addrs).intersect(m.dom()) =~= s0.intersect(m.dom()).insert(ka));
        } else {
            assert(m0 =~= m.remove_keys(addr_keys(addrs)));
            assert(addr_keys(addrs).intersect(m.dom()) =~= s0.intersect(m.dom()));
        }
    }
}

/// After a pair was paused, unpausing it with the same assets and pair type
/// succeeds for the owner, asks the pair contract to unpause and restores the
/// factory's state; anyone else, pause authorities included, is refused with
/// `NoUnpauseAuthority` and the pair stays paused.
pub proof fn lemma_unpause_after_pause(
    f0: Factory,
    f1: Factory,
    f2: Factory,
    pauser: String,
    unpauser: String,
    asset_infos: Vec<AssetInfo>,
    token_checks: Vec<Result<(), StdError>>,
    pair_type: PairType,
    r1: Result<Response<FactoryMsg>, ContractError>,
    r2: Result<Response<FactoryMsg>, ContractError>,
)
    requires
        f0.wf(),
        pause_pair_outcome(f0, f1, pauser, asset_infos, token_checks, pair_type, r1),
        r1 is Ok,
        unpause_pair_outcome(f1, f2, unpauser, asset_infos, token_checks, pair_type, r2),
    ensures
        unpauser@ == f0.config.owner@ ==> (r2 matches Ok(resp) && f2.state() == f0.state()
            && resp.messages@ == seq![FactoryMsg::Unpause {
                contract_addr: f0.state().pairs[pair_key_spec(asset_infos@, pair_type)],
            }]),
        unpauser@ != f0.config.owner@ ==> r2 == Err::<Response<FactoryMsg>, ContractError>(
            ContractError::NoUnpauseAuthority {},
        ) && f2 == f1 && f1.state().paused.contains(pair_key_spec(asset_infos@, pair_type)),
{
    let key = pair_key_spec(asset_infos@, pair_type);
    assert(!has_asset_error(asset_infos@, token_checks@));
    assert(pause_error(f0.state(), pauser@, key) is None);
    lemma_pause_then_unpause(f0.state(), pauser@, key);
}

/// A call's contract fixes what the factory stores afterwards and what it
/// answers: two factories that answered the same call from the same state end
/// in the same state and answered the same. Since `execute`'s contract is,
/// call by call, the contract of the operation that the call names, `execute`
/// stores and answers what that operation does.
pub proof fn lemma_execute_answers_as_its_operation(
    old: Factory,
    n1: Factory,
    n2: Factory,
    sender: String,
    funds: Vec<Coin>,
    contract_addr: String,
    now: u64,
    msg: ExecuteMsg,
    r1: Result<Response<FactoryMsg>, ContractError>,
    r2: Result<Response<FactoryMsg>, ContractError>,
)
    requires
        old.wf(),
        execute_outcome(old, n1, sender, funds, contract_addr, now, msg, r1),
        execute_outcome(old, n2, sender, funds, contract_addr, now, msg, r2),
    ensures
        n1.state() == n2.state(),
        same_answer(r1, r2),
{
}

/// Finding the pairs of some assets across pair types gives, for every
/// configured pair type under which a pair of these assets is stored, that
/// pair's address, and nothing else: as many addresses as there are such pair
/// types.
#[verifier::spinoff_prover]
pub proof fn lemma_pairs_by_assets_lists_every_type(types: Seq<PairConfig>, pairs: Map<Seq<u8>, String>, assets: Seq<AssetInfo>)
    ensures
        pairs_of_types(types, pairs, assets).len() == types.filter(
            |pc: PairConfig| pairs.contains_key(pair_key_spec(assets, pc.pair_type)),
        ).len(),
        forall|i: int| 0 <= i < types.len() && pairs.contains_key(pair_key_spec(assets, #[trigger] types[i].pair_type))
            ==> pairs_of_types(types, pairs, assets).contains(pairs[pair_key_spec(assets, types[i].pair_type)]),
    decreases types.len(),
{
    let pred = |pc: PairConfig| pairs.contains_key(pair_key_spec(assets, pc.pair_type));
    if types.len() == 0 {
        assert(types.filter(pred) =~= Seq::<PairConfig>::empty()) by {
            reveal(Seq::filter);
        }
    } else {
        let rest = types.drop_last();
        let n = types.len() - 1;
        lemma_pairs_by_assets_lists_every_type(rest, pairs, assets);
        assert(rest.push(types[n]) =~= types);
        rest.lemma_filter_push(types[n], pred);
        let r0 = pairs_of_types(rest, pairs, assets);
        let r = pairs_of_types(types, pairs, assets);
        let k = pair_key_spec(assets, types[n].pair_type);
        assert forall|i: int| 0 <= i < types.len() && pairs.contains_key(pair_key_spec(assets, #[trigger] types[i].pair_type))
            implies r.contains(pairs[pair_key_spec(assets, types[i].pair_type)]) by {
            if i < n {
                assert(rest[i] == types[i]);
                let j = choose|j: int| 0 <= j < r0.len() && r0[j] == pairs[pair_key_spec(assets, rest[i].pair_type)];
                if pairs.contains_key(k) {
                    assert(r[j] == r0[j]);
                }
            } else {
                assert(r[r0.len() as int] == pairs[k]);
            }
        }
    }
}

/// Finding the pairs of some assets across pair types gives exactly, in the
/// order of the configured pair types, the stored pair of these assets under
/// each configured pair type that has one.
pub proof fn lemma_pairs_by_assets_in_type_order(types: Seq<PairConfig>, pairs: Map<Seq<u8>, String>, assets: Seq<AssetInfo>)
    ensures
        pairs_of_types(types, pairs, assets) == types.filter(
            |pc: PairConfig| pairs.contains_key(pair_key_spec(assets, pc.pair_type)),
        ).map_values(|pc: PairConfig| pairs[pair_key_spec(assets, pc.pair_type)]),
    decreases types.len(),
{
    let pred = |pc: PairConfig| pairs.contains_key(pair_key_spec(assets, pc.pair_type));
    let f = |pc: PairConfig| pairs[pair_key_spec(assets, pc.pair_type)];
    if types.len() == 0 {
        assert(types.filter(pred) =~= Seq::<PairConfig>::empty()) by {
            reveal(Seq::filter);
        }
        assert(types.filter(pred).map_values(f) =~= Seq::<String>::empty());
    } else {
        let rest = types.drop_last();
        let n = types.len() - 1;
        lemma_pairs_by_assets_in_type_order(rest, pairs, assets);
        assert(rest.push(types[n]) =~= types);
        rest.lemma_filter_push(types[n], pred);
        if pred(types[n]) {
            assert(rest.filter(pred).push(types[n]).map_values(f) =~= rest.filter(pred).map_values(f).push(f(types[n])));
        }
    }
}

/// The blacklisted pair types are exactly the pair types of the settings that
/// are disabled or get no generator emissions: each such pair type is listed,
/// and each listed pair type has such settings.
pub proof fn lemma_blacklisted_lists_flagged_types(pcs: Seq<PairConfig>)
    ensures
        forall|i: int| 0 <= i < pcs.len() && (pcs[i].is_disabled || pcs[i].is_generator_disabled)
            ==> blacklisted(pcs).contains(#[trigger] pcs[i].pair_type),
        forall|j: int| #![trigger blacklisted(pcs)[j]] 0 <= j < blacklisted(pcs).len() ==> exists|i: int| #![trigger pcs[i]]
            0 <= i < pcs.len() && (pcs[i].is_disabled || pcs[i].is_generator_disabled)
                && pcs[i].pair_type == blacklisted(pcs)[j],
        blacklisted(pcs).len() == pcs.filter(|pc: PairConfig| pc.is_disabled || pc.is_generator_disabled).len(),
{
    let pred = |pc: PairConfig| pc.is_disabled || pc.is_generator_disabled;
    let f = pcs.filter(pred);
    assert forall|i: int| 0 <= i < pcs.len() && (pcs[i].is_disabled || pcs[i].is_generator_disabled)
        implies blacklisted(pcs).contains(#[trigger] pcs[i].pair_type) by {
        pcs.lemma_filter_contains(pred, i);
        let j = choose|j: int| 0 <= j < f.len() && f[j] == pcs[i];
        assert(blacklisted(pcs)[j] == pcs[i].pair_type);
    }
    assert forall|j: int| #![trigger blacklisted(pcs)[j]] 0 <= j < blacklisted(pcs).len() implies exists|i: int| #![trigger pcs[i]]
        0 <= i < pcs.len() && (pcs[i].is_disabled || pcs[i].is_generator_disabled)
            && pcs[i].pair_type == blacklisted(pcs)[j] by {
        pcs.lemma_filter_pred(pred, j);
        assert(f.contains(f[j]));
        pcs.lemma_filter_contains_rev(pred, f[j]);
        let i = choose|i: int| 0 <= i < pcs.len() && pcs[i] == f[j];
        assert(pcs[i] == f[j]);
    }
}

/// Updating the general settings succeeds exactly when the owner asks and
/// every given address passed its check; then each given field replaces the
/// stored one and each field left out stays, the owner and everything else
/// stay; a refused update changes nothing.
pub proof fn lemma_update_config_sets_given_fields(
    old: Factory,
    new: Factory,
    sender: String,
    p: UpdateConfig,
    r: Result<Response<FactoryMsg>, ContractError>,
)
    requires
        update_config_outcome(old, new, sender, p, r),
    ensures
        r is Ok <==> (sender@ == old.config.owner@ && !(p.fee_address matches Some(Err(_)))
            && !(p.generator_address matches Some(Err(_))) && !(p.coin_registry_address matches Some(Err(_)))),
        r is Err ==> new == old,
        r is Ok ==> {
            &&& new.config.owner == old.config.owner
            &&& (p.token_code_id matches Some(v) ==> new.config.token_code_id == v)
            &&& (p.token_code_id is None ==> new.config.token_code_id == old.config.token_code_id)
            &&& (p.whitelist_code_id matches Some(v) ==> new.config.whitelist_code_id == v)
            &&& (p.whitelist_code_id is None ==> new.config.whitelist_code_id == old.config.whitelist_code_id)
            &&& (p.fee_address matches Some(Ok(a)) ==> new.config.fee_address == Some(a))
            &&& (p.fee_address is None ==> new.config.fee_address == old.config.fee_address)
            &&& (p.generator_address matches Some(Ok(a)) ==> new.config.generator_address == Some(a))
            &&& (p.generator_address is None ==> new.config.generator_address == old.config.generator_address)
            &&& (p.coin_registry_address matches Some(Ok(a)) ==> new.config.coin_registry_address == a)
            &&& (p.coin_registry_address is None ==> new.config.coin_registry_address == old.config.coin_registry_address)
            &&& new.state().pairs == old.state().pairs
            &&& new.state().pair_configs == old.state().pair_configs
            &&& new.state().paused == old.state().paused
            &&& new.state().authorities == old.state().authorities
        },
{
}

/// A factory that instantiates stores exactly what it was given: the owner,
/// code identifiers and addresses (an address left out stays unset), each pair
/// type's settings under its pair type and no others, the tracker settings;
/// and it starts with no pair, no pause, no pause authority, no pending pair
/// and no ownership proposal.
pub proof fn lemma_instantiate_stores_what_it_is_given(msg: InstantiateMsg)
    requires
        instantiate_error(msg) is None,
    ensures
        ({
            let s = instantiated_state(msg);
            &&& msg.owner matches Ok(a) && s.config.owner == a
            &&& s.config.token_code_id == msg.token_code_id
            &&& s.config.whitelist_code_id == msg.whitelist_code_id
            &&& msg.coin_registry_address matches Ok(a) && s.config.coin_registry_address == a
            &&& (msg.fee_address matches Some(Ok(a)) ==> s.config.fee_address == Some(a))
            &&& (msg.fee_address is None ==> s.config.fee_address is None)
            &&& (msg.generator_address matches Some(Ok(a)) ==> s.config.generator_address == Some(a))
            &&& (msg.generator_address is None ==> s.config.generator_address is None)
            &&& forall|i: int| 0 <= i < msg.pair_configs@.len() ==> s.pair_configs.contains_key(
                config_key(#[trigger] msg.pair_configs@[i].pair_type))
                && s.pair_configs[config_key(msg.pair_configs@[i].pair_type)] == msg.pair_configs@[i]
            &&& forall|k: Seq<u8>| #[trigger] s.pair_configs.contains_key(k) ==> exists|i: int|
                0 <= i < msg.pair_configs@.len() && config_key(msg.pair_configs@[i].pair_type) == k
            &&& (msg.tracker_config matches Some(t) ==> s.tracker_config matches Some(c)
                && c.code_id == t.code_id && t.token_factory_addr == Ok::<String, StdError>(c.token_factory_addr))
            &&& (msg.tracker_config is None ==> s.tracker_config is None)
            &&& s.pairs.dom().is_empty()
            &&& s.order.len() == 0
            &&& s.paused.is_empty()
            &&& s.authorities.dom().is_empty()
            &&& s.tmp_key is None
            &&& s.proposal is None
        }),
{
    lemma_configs_map_holds_each(msg.pair_configs@);
}

/// A batch handles 50 pairs when no size is given, the given size up to 100,
/// and never more than 100.
pub proof fn lemma_batch_limit_caps(b: Option<u32>)
    ensures
        batch_limit(b) <= 100,
        b is None ==> batch_limit(b) == 50,
        b matches Some(v) ==> (v <= 100 ==> batch_limit(b) == v),
        b matches Some(v) ==> (v > 100 ==> batch_limit(b) == 100),
{
}

/// A batch pause that succeeds pauses as many pairs as are unpaused, up to the
/// batch's size: never more than 100, sending one pause message for each, and
/// pausing no more than 100 new keys.
pub proof fn lemma_batch_pause_at_most_100(
    old: Factory,
    new: Factory,
    sender: String,
    batch_size: Option<u32>,
    r: Result<Response<FactoryMsg>, ContractError>,
)
    requires
        old.wf(),
        pause_batch_outcome(old, new, sender, batch_size, r),
        r is Ok,
    ensures
        r matches Ok(resp) && resp.messages@.len() <= 100 && resp.messages@.len() == (
            if unpaused_entries(pair_entries(old), old.state().paused).len() < batch_limit(batch_size) {
                unpaused_entries(pair_entries(old), old.state().paused).len()
            } else {
                batch_limit(batch_size)
            }),
        new.state().paused.difference(old.state().paused).finite(),
        new.state().paused.difference(old.state().paused).len() <= 100,
{
    broadcast use vstd::set::group_set_axioms;
    let b = batch_to_pause(old, batch_size);
    let ks = entry_keys(b);
    ks.lemma_cardinality_of_set();
    assert(new.state().paused.difference(old.state().paused).subset_of(ks.to_set()));
    vstd::set_lib::lemma_len_subset(new.state().paused.difference(old.state().paused), ks.to_set());
}

/// A batch unpause that succeeds unpauses as many paused pairs as the batch's
/// size allows: never more than 100, sending one unpause message for each, and
/// unpausing no more than 100 keys.
pub proof fn lemma_batch_unpause_at_most_100(
    old: Factory,
    new: Factory,
    sender: String,
    batch_size: Option<u32>,
    r: Result<Response<FactoryMsg>, ContractError>,
)
    requires
        old.wf(),
        unpause_batch_outcome(old, new, sender, batch_size, r),
        r is Ok,
    ensures
        r matches Ok(resp) && resp.messages@.len() <= 100 && resp.messages@.len() == (
            if old.paused.size() < batch_limit(batch_size) {
                old.paused.size()
            } else {
                batch_limit(batch_size)
            }),
        old.state().paused.difference(new.state().paused).finite(),
        old.state().paused.difference(new.state().paused).len() <= 100,
{
    broadcast use vstd::set::group_set_axioms;
    let ks = batch_to_unpause(old, batch_size);
    ks.lemma_cardinality_of_set();
    assert(old.state().paused.difference(new.state().paused).subset_of(ks.to_set()));
    vstd::set_lib::lemma_len_subset(old.state().paused.difference(new.state().paused), ks.to_set());
}

/// A listing asks for 10 pairs when no limit is given, the given limit up to
/// 30, and never more than 30.
pub proof fn lemma_listing_limit_caps(limit: Option<u32>)
    ensures
        effective_limit(limit) <= 30,
        limit is None ==> effective_limit(limit) == 10,
        limit matches Some(v) ==> (v <= 30 ==> effective_limit(limit) == v),
        limit matches Some(v) ==> (v > 30 ==> effective_limit(limit) == 30),
{
}

/// Listing from the start gives the oldest pairs, in the order of their
/// creation, as many as the limit allows.
pub proof fn lemma_first_page_is_oldest(s: FactoryState, limit: nat)
    ensures
        pairs_page(s, None, limit).len() == (if s.order.len() < limit { s.order.len() } else { limit }),
        forall|i: int| 0 <= i < pairs_page(s, None, limit).len() ==> #[trigger] pairs_page(s, None, limit)[i]
            == s.pairs[s.order[i]],
{
}

/// Listing after the `p`-th oldest pair gives the pairs created after it, in
/// the order of their creation, as many as the limit allows; listing after a
/// pair that is not stored gives none.
pub proof fn lemma_page_after_pair(s: FactoryState, p: int, limit: nat, absent: Seq<u8>)
    requires
        s.order.no_duplicates(),
        0 <= p < s.order.len(),
        !s.order.contains(absent),
    ensures
        pairs_page(s, Some(s.order[p]), limit).len() == (if s.order.len() - p - 1 < limit {
            s.order.len() - p - 1
        } else {
            limit as int
        }),
        forall|i: int| 0 <= i < pairs_page(s, Some(s.order[p]), limit).len() ==> #[trigger] pairs_page(
            s, Some(s.order[p]), limit)[i] == s.pairs[s.order[p + 1 + i]],
        pairs_page(s, Some(absent), limit).len() == 0,
{
    lemma_key_pos(s.order, p);
    assert(s.order.contains(s.order[p]));
}

/// Updating the tracker settings succeeds exactly when the owner asks and a
/// tracker is set or a token factory address is given; then the tracker has
/// the given code identifier, keeps a stored token factory address and takes
/// the given one otherwise; a refused update changes nothing.
pub proof fn lemma_tracker_update(
    old: Factory,
    new: Factory,
    sender: String,
    code_id: u64,
    token_factory_addr: Option<String>,
    r: Result<Response<FactoryMsg>, ContractError>,
)
    requires
        tracker_config_outcome(old, new, sender, code_id, token_factory_addr, r),
    ensures
        r is Ok <==> (sender@ == old.config.owner@ && (old.tracker_config is Some || token_factory_addr is Some)),
        r is Err ==> new == old,
        r is Ok ==> (new.tracker_config matches Some(t) && t.code_id == code_id
            && (old.tracker_config matches Some(o) ==> t.token_factory_addr == o.token_factory_addr)
            && (old.tracker_config is None ==> token_factory_addr == Some(t.token_factory_addr))
            && new.config == old.config && new.state().pairs == old.state().pairs),
{
}

/// Setting a pair type's settings succeeds exactly when the owner asks and
/// both fees are at most 10,000 basis points; then those settings are stored
/// under their pair type and every other pair type keeps its settings; a
/// refused update changes nothing.
pub proof fn lemma_pair_config_update(
    old: Factory,
    new: Factory,
    sender: String,
    pc: PairConfig,
    r: Result<Response<FactoryMsg>, ContractError>,
)
    requires
        update_pair_config_outcome(old, new, sender, pc, r),
    ensures
        r is Ok <==> (sender@ == old.config.owner@ && pc.total_fee_bps <= 10_000 && pc.maker_fee_bps <= 10_000),
        r is Err ==> new == old,
        r is Ok ==> (new.state().pair_configs.contains_key(config_key(pc.pair_type))
            && new.state().pair_configs[config_key(pc.pair_type)] == pc
            && (forall|k: Seq<u8>| k != config_key(pc.pair_type) ==> (#[trigger] new.state().pair_configs.contains_key(k)
                <==> old.state().pair_configs.contains_key(k)) && (old.state().pair_configs.contains_key(k)
                ==> new.state().pair_configs[k] == old.state().pair_configs[k]))
            && new.config == old.config && new.state().pairs == old.state().pairs),
{
}

} // verus!
