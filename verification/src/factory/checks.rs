//! Checks of the asset lists and pair type settings that the factory is given.
use vstd::prelude::*;
use crate::asset::{AssetInfo, utf8, denom_error, same_asset_ignoring_case, validate_native_denom,
    pair_type_text};
use crate::error::{StdError, generic_text};
use crate::factory::types::{ContractError, PairConfig, config_key};
use crate::ordered::ByteMap;

verus! {

/// Two of the assets are the same up to ASCII letter case.
pub open spec fn has_case_duplicate(a: Seq<AssetInfo>) -> bool {
    exists|i: int, j: int| 0 <= i < j < a.len() && #[trigger] same_asset_ignoring_case(a[i], a[j])
}

/// The error text of checking one asset: a token's address as the chain's
/// address check answered, a native denomination by its format.
pub open spec fn asset_check_error(a: AssetInfo, c: Result<(), StdError>) -> Option<Seq<char>> {
    match a {
        AssetInfo::Token { .. } => match c {
            Ok(_) => None,
            Err(e) => Some(e.text@),
        },
        AssetInfo::NativeToken { denom } => match denom_error(denom@) {
            Some(m) => Some(generic_text(m)),
            None => None,
        },
    }
}

/// The error text of the first asset whose check fails, if any.
pub open spec fn first_asset_error(a: Seq<AssetInfo>, c: Seq<Result<(), StdError>>) -> Option<Seq<char>>
    decreases a.len(),
{
    if a.len() == 0 {
        None
    } else if asset_check_error(a[0], c[0]) is Some {
        asset_check_error(a[0], c[0])
    } else {
        first_asset_error(a.drop_first(), c.drop_first())
    }
}

/// What checking an asset list gives: `DoublingAssets` when two assets are the
/// same up to case, else the first failing asset's error, else nothing.
pub open spec fn asset_infos_error(a: Seq<AssetInfo>, c: Seq<Result<(), StdError>>) -> Option<Seq<char>> {
    if has_case_duplicate(a) {
        Some("Doubling assets in asset infos"@)
    } else {
        first_asset_error(a, c)
    }
}

/// Some asset fails its check or two are the same up to case.
pub open spec fn has_asset_error(a: Seq<AssetInfo>, c: Seq<Result<(), StdError>>) -> bool {
    asset_infos_error(a, c) is Some
}

/// `r` is the refusal that checking the asset list gives: `DoublingAssets`
/// when two assets are the same up to case, else a standard error with the
/// text of the first failing asset.
pub open spec fn asset_refusal<T>(a: Seq<AssetInfo>, c: Seq<Result<(), StdError>>, r: Result<T, ContractError>) -> bool {
    if has_case_duplicate(a) {
        r == Err::<T, ContractError>(ContractError::DoublingAssets {})
    } else {
        match first_asset_error(a, c) {
            Some(m) => r matches Err(ContractError::Std(e)) && e.text@ == m,
            None => false,
        }
    }
}

proof fn lemma_first_error_skip(a: Seq<AssetInfo>, c: Seq<Result<(), StdError>>, i: int)
    requires
        0 <= i < a.len(),
        a.len() == c.len(),
        asset_check_error(a[i], c[i]) is None,
    ensures
        first_asset_error(a.skip(i), c.skip(i)) == first_asset_error(a.skip(i + 1), c.skip(i + 1)),
{
    assert(a.skip(i).drop_first() =~= a.skip(i + 1));
    assert(c.skip(i).drop_first() =~= c.skip(i + 1));
}

/// Checks an asset list: no two assets may be the same up to ASCII letter
/// case, and each asset must pass its own check. `token_checks[i]` is what the
/// chain's address check answered for asset `i` when it is a token.
pub fn check_asset_infos(asset_infos: &Vec<AssetInfo>, token_checks: &Vec<Result<(), StdError>>) -> (r: Result<(), ContractError>)
    requires
        token_checks@.len() == asset_infos@.len(),
    ensures
        has_case_duplicate(asset_infos@) ==> r == Err::<(), ContractError>(ContractError::DoublingAssets {}),
        !has_case_duplicate(asset_infos@) ==> match first_asset_error(asset_infos@, token_checks@) {
            None => r is Ok,
            Some(m) => r matches Err(ContractError::Std(e)) && e.text@ == m,
        },
{
    let n = asset_infos.len();
    let mut i: usize = 0;
    while i < n
        invariant
            n == asset_infos@.len(),
            i <= n,
            forall|x: int, y: int| 0 <= x < i && x < y < n ==> !#[trigger] same_asset_ignoring_case(asset_infos@[x], asset_infos@[y]),
        decreases n - i,
    {
        let mut j: usize = i + 1;
        while j < n
            invariant
                n == asset_infos@.len(),
                i < n,
                i + 1 <= j <= n,
                forall|x: int, y: int| 0 <= x < i && x < y < n ==> !#[trigger] same_asset_ignoring_case(asset_infos@[x], asset_infos@[y]),
                forall|y: int| i < y < j ==> !#[trigger] same_asset_ignoring_case(asset_infos@[i as int], asset_infos@[y]),
            decreases n - j,
        {
            if asset_infos[i].case_insensitive_eq(&asset_infos[j]) {
                return Err(ContractError::DoublingAssets {});
            }
            j = j + 1;
        }
        i = i + 1;
    }
    assert(!has_case_duplicate(asset_infos@));
    let mut k: usize = 0;
    assert(asset_infos@.skip(0) =~= asset_infos@);
    assert(token_checks@.skip(0) =~= token_checks@);
    while k < n
        invariant
            n == asset_infos@.len(),
            n == token_checks@.len(),
            k <= n,
            !has_case_duplicate(asset_infos@),
            first_asset_error(asset_infos@, token_checks@) == first_asset_error(asset_infos@.skip(k as int), token_checks@.skip(k as int)),
        decreases n - k,
    {
        assert(asset_infos@.skip(k as int)[0] == asset_infos@[k as int]);
        assert(token_checks@.skip(k as int)[0] == token_checks@[k as int]);
        match &asset_infos[k] {
            AssetInfo::Token { .. } => {
                match &token_checks[k] {
                    Ok(_) => {},
                    Err(e) => {
                        return Err(ContractError::Std(StdError { text: e.text.clone() }));
                    },
                }
            },
            AssetInfo::NativeToken { denom } => {
                match validate_native_denom(denom) {
                    Ok(_) => {},
                    Err(e) => {
                        return Err(ContractError::Std(e));
                    },
                }
            },
        }
        proof {
            lemma_first_error_skip(asset_infos@, token_checks@, k as int);
        }
        k = k + 1;
    }
    Ok(())
}

/// Two of the settings are for pair types with the same text.
pub open spec fn has_duplicate_type(pcs: Seq<PairConfig>) -> bool {
    exists|i: int, j: int|
        0 <= i < j < pcs.len() && #[trigger] pair_type_text(pcs[i].pair_type) == #[trigger] pair_type_text(pcs[j].pair_type)
}

/// The pair type settings as stored: each under its pair type's key.
pub open spec fn configs_map(pcs: Seq<PairConfig>) -> Map<Seq<u8>, PairConfig>
    decreases pcs.len(),
{
    if pcs.len() == 0 {
        Map::empty()
    } else {
        configs_map(pcs.drop_last()).insert(config_key(pcs.last().pair_type), pcs.last())
    }
}

proof fn lemma_config_key_injective(a: crate::asset::PairType, b: crate::asset::PairType)
    ensures
        config_key(a) == config_key(b) <==> pair_type_text(a) == pair_type_text(b),
{
    broadcast use vstd::utf8::encode_utf8_decode_utf8;
    if config_key(a) == config_key(b) {
        assert(vstd::utf8::decode_utf8(utf8(pair_type_text(a))) == pair_type_text(a));
        assert(vstd::utf8::decode_utf8(utf8(pair_type_text(b))) == pair_type_text(b));
    }
}

/// Settings for distinct pair types are each stored under their pair type's
/// key, and nothing else is stored.
pub proof fn lemma_configs_map_holds_each(pcs: Seq<PairConfig>)
    requires
        !has_duplicate_type(pcs),
    ensures
        forall|i: int| 0 <= i < pcs.len() ==> configs_map(pcs).contains_key(config_key(#[trigger] pcs[i].pair_type))
            && configs_map(pcs)[config_key(pcs[i].pair_type)] == pcs[i],
        forall|k: Seq<u8>| #[trigger] configs_map(pcs).contains_key(k) ==> exists|i: int| 0 <= i < pcs.len()
            && config_key(pcs[i].pair_type) == k,
    decreases pcs.len(),
{
    if pcs.len() > 0 {
        let rest = pcs.drop_last();
        let n = pcs.len() - 1;
        assert(!has_duplicate_type(rest)) by {
            if has_duplicate_type(rest) {
                let (i, j) = choose|i: int, j: int|
                    0 <= i < j < rest.len() && #[trigger] pair_type_text(rest[i].pair_type) == #[trigger] pair_type_text(rest[j].pair_type);
                assert(pair_type_text(pcs[i].pair_type) == pair_type_text(pcs[j].pair_type));
            }
        }
        lemma_configs_map_holds_each(rest);
        assert forall|i: int| 0 <= i < pcs.len() implies configs_map(pcs).contains_key(config_key(#[trigger] pcs[i].pair_type))
            && configs_map(pcs)[config_key(pcs[i].pair_type)] == pcs[i] by {
            if i < n {
                assert(rest[i] == pcs[i]);
                lemma_config_key_injective(pcs[i].pair_type, pcs[n].pair_type);
                if pair_type_text(pcs[i].pair_type) == pair_type_text(pcs[n].pair_type) {
                    assert(has_duplicate_type(pcs));
                }
            }
        }
        assert forall|k: Seq<u8>| #[trigger] configs_map(pcs).contains_key(k) implies exists|i: int| 0 <= i < pcs.len()
            && config_key(pcs[i].pair_type) == k by {
            if k != config_key(pcs[n].pair_type) {
                assert(configs_map(rest).contains_key(k));
                let i = choose|i: int| 0 <= i < rest.len() && config_key(rest[i].pair_type) == k;
                assert(rest[i] == pcs[i]);
            }
        }
    }
}

/// Whether two of the settings are for the same pair type.
pub fn has_duplicate_pair_type(pcs: &Vec<PairConfig>) -> (r: bool)
    ensures
        r == has_duplicate_type(pcs@),
{
    let mut seen: ByteMap<()> = ByteMap::new();
    let mut i: usize = 0;
    while i < pcs.len()
        invariant
            i <= pcs@.len(),
            seen.wf(),
            forall|k: Seq<u8>| seen.map().contains_key(k) <==> exists|x: int| 0 <= x < i && #[trigger] config_key(pcs@[x].pair_type) == k,
            !has_duplicate_type(pcs@.take(i as int)),
        decreases pcs.len() - i,
    {
        let key = crate::asset::string_bytes(&pcs[i].pair_type.to_string());
        assert(key@ == config_key(pcs@[i as int].pair_type));
        if seen.contains(&key) {
            proof {
                let x = choose|x: int| 0 <= x < i && #[trigger] config_key(pcs@[x].pair_type) == key@;
                lemma_config_key_injective(pcs@[x].pair_type, pcs@[i as int].pair_type);
                assert(pair_type_text(pcs@[x].pair_type) == pair_type_text(pcs@[i as int].pair_type));
            }
            return true;
        }
        seen.insert(key, ());
        proof {
            assert forall|k: Seq<u8>| seen.map().contains_key(k) <==> exists|x: int| 0 <= x < i + 1 && #[trigger] config_key(pcs@[x].pair_type) == k by {
                if k == config_key(pcs@[i as int].pair_type) {
                    assert(config_key(pcs@[i as int].pair_type) == k);
                }
            }
            assert forall|x: int, y: int| 0 <= x < y < i + 1 implies #[trigger] pair_type_text(pcs@.take(i + 1)[x].pair_type) != #[trigger] pair_type_text(pcs@.take(i + 1)[y].pair_type) by {
                if y == i {
                    lemma_config_key_injective(pcs@[x].pair_type, pcs@[y].pair_type);
                    if config_key(pcs@[x].pair_type) == key@ {
                        assert(exists|z: int| 0 <= z < i && #[trigger] config_key(pcs@[z].pair_type) == key@);
                    }
                } else {
                    assert(pcs@.take(i as int)[x] == pcs@[x]);
                    assert(pcs@.take(i as int)[y] == pcs@[y]);
                }
            }
        }
        i = i + 1;
    }
    assert(pcs@.take(pcs@.len() as int) =~= pcs@);
    false
}

/// Whether some setting has a fee above 10,000 basis points.
pub fn has_invalid_fee(pcs: &Vec<PairConfig>) -> (r: bool)
    ensures
        r == exists|i: int| 0 <= i < pcs@.len() && !(#[trigger] pcs@[i]).fees_valid(),
{
    let mut i: usize = 0;
    while i < pcs.len()
        invariant
            i <= pcs@.len(),
            forall|x: int| 0 <= x < i ==> (#[trigger] pcs@[x]).fees_valid(),
        decreases pcs.len() - i,
    {
        if !pcs[i].valid_fee_bps() {
            return true;
        }
        i = i + 1;
    }
    false
}

/// Stores each of the settings under its pair type's key.
pub fn build_configs(pcs: &Vec<PairConfig>) -> (m: ByteMap<PairConfig>)
    ensures
        m.wf(),
        m.map() == configs_map(pcs@),
        forall|i: int| 0 <= i < m.size() ==> #[trigger] m.key_at(i) == config_key(m.val_at(i).pair_type),
{
    let mut m: ByteMap<PairConfig> = ByteMap::new();
    let mut i: usize = 0;
    while i < pcs.len()
        invariant
            i <= pcs@.len(),
            m.wf(),
            m.map() == configs_map(pcs@.take(i as int)),
            forall|x: int| 0 <= x < m.size() ==> #[trigger] m.key_at(x) == config_key(m.val_at(x).pair_type),
        decreases pcs.len() - i,
    {
        let key = crate::asset::string_bytes(&pcs[i].pair_type.to_string());
        let pc = pcs[i].copy();
        insert_config(&mut m, key, pc);
        assert(pcs@.take(i + 1).drop_last() =~= pcs@.take(i as int));
        i = i + 1;
    }
    assert(pcs@.take(pcs@.len() as int) =~= pcs@);
    m
}

/// Stores `pc` under `key`, its pair type's key.
pub fn insert_config(m: &mut ByteMap<PairConfig>, key: Vec<u8>, pc: PairConfig)
    requires
        old(m).wf(),
        key@ == config_key(pc.pair_type),
        forall|x: int| 0 <= x < old(m).size() ==> #[trigger] old(m).key_at(x) == config_key(old(m).val_at(x).pair_type),
    ensures
        final(m).wf(),
        final(m).map() == old(m).map().insert(key@, pc),
        forall|x: int| 0 <= x < final(m).size() ==> #[trigger] final(m).key_at(x) == config_key(final(m).val_at(x).pair_type),
{
    let ghost kv = key@;
    let ghost pcv = pc;
    m.insert(key, pc);
    proof {
        assert forall|x: int| 0 <= x < m.size() implies #[trigger] m.key_at(x) == config_key(m.val_at(x).pair_type) by {
            let k = m.key_at(x);
            m.lemma_index_unique(x, k);
            assert(m.map().contains_key(k));
            if k == kv {
                assert(m.map()[k] == pcv);
            } else {
                assert(old(m).map().contains_key(k));
                let y = choose|y: int| 0 <= y < old(m).size() && #[trigger] old(m).key_at(y) == k;
                old(m).lemma_index_unique(y, k);
            }
        }
    }
}

} // verus!
