use oroswap_contracts::asset::{copy_asset_infos, AssetInfo, Coin, PairType};
use oroswap_contracts::error::{Checked, StdError};
use oroswap_contracts::factory::checks::check_asset_infos;
use oroswap_contracts::factory::types::{
    ExecuteMsg,
    ContractError, Factory, FactoryMsg, InstantiateMsg, PairConfig, UpdateConfig,
};
use oroswap_contracts::keys::{calc_range_start, pair_key};
use oroswap_contracts::response::Response;

fn native(denom: &str) -> AssetInfo {
    AssetInfo::NativeToken { denom: denom.to_string() }
}

fn token(addr: &str) -> AssetInfo {
    AssetInfo::Token { contract_addr: addr.to_string() }
}

fn ok(addr: &str) -> Checked {
    Ok(addr.to_string())
}

fn pair_config(code_id: u64, pair_type: PairType, total_fee_bps: u16, maker_fee_bps: u16) -> PairConfig {
    PairConfig {
        code_id,
        pair_type,
        total_fee_bps,
        maker_fee_bps,
        is_disabled: false,
        is_generator_disabled: false,
        permissioned: false,
        pool_creation_fee: 1000,
    }
}

fn instantiate_msg(owner: &str, pair_configs: Vec<PairConfig>) -> InstantiateMsg {
    InstantiateMsg {
        pair_configs,
        token_code_id: 123,
        fee_address: None,
        generator_address: Some(ok("generator")),
        owner: ok(owner),
        whitelist_code_id: 234,
        coin_registry_address: ok("coin_registry"),
        tracker_config: None,
    }
}

fn new_factory(owner: &str, pair_configs: Vec<PairConfig>) -> Factory {
    Factory::instantiate(instantiate_msg(owner, pair_configs)).unwrap().0
}

fn xyk_factory(owner: &str) -> Factory {
    new_factory(owner, vec![pair_config(123, PairType::Xyk, 30, 166)])
}

fn checks(assets: &Vec<AssetInfo>) -> Vec<Result<(), StdError>> {
    assets.iter().map(|_| Ok(())).collect()
}

fn uzig(amount: u128) -> Vec<Coin> {
    vec![Coin { denom: "uzig".to_string(), amount }]
}

/// The protobuf bytes of an instantiation reply that carries `addr`.
fn reply_data(addr: &str) -> Vec<u8> {
    let mut data = vec![0x0a, addr.len() as u8];
    data.extend_from_slice(addr.as_bytes());
    data
}

fn attrs<M>(resp: &Response<M>) -> Vec<(String, String)> {
    resp.attributes.iter().map(|a| (a.key.clone(), a.value.clone())).collect()
}

fn attr(k: &str, v: &str) -> (String, String) {
    (k.to_string(), v.to_string())
}

fn has_attr<M>(resp: &Response<M>, k: &str, v: &str) -> bool {
    resp.attributes.iter().any(|a| a.key == k && a.value == v)
}

/// Creates the pair of `assets` and registers it at `addr`.
fn create_and_register(f: &mut Factory, assets: &Vec<AssetInfo>, addr: &str) {
    f.execute_create_pair(
        &"addr0000".to_string(),
        uzig(1000),
        &"factory".to_string(),
        PairType::Xyk,
        copy_asset_infos(&assets),
        &checks(assets),
        None,
    )
    .unwrap();
    f.reply(1, &Some(reply_data(addr)), Ok(())).unwrap();
}

fn two_assets() -> Vec<Vec<AssetInfo>> {
    vec![vec![native("uluna"), native("uusd")], vec![token("asset0000"), token("asset0001")]]
}

fn is_paused(f: &Factory, assets: &Vec<AssetInfo>) -> bool {
    f.query_is_pair_paused(assets, &checks(assets), &PairType::Xyk).unwrap()
}

fn test_cases() -> Vec<Vec<AssetInfo>> {
    vec![
        vec![native("uluna"), native("uusd")],
        vec![native("uluna"), token("oro_token_addr")],
        vec![token("random_token_addr"), token("oro_token_addr")],
    ]
}

#[test]
fn test_pair_key() {
    let asset_infos = copy_asset_infos(&test_cases()[0]);
    let xyk_key = pair_key(&asset_infos, &PairType::Xyk);
    let stable_key = pair_key(&asset_infos, &PairType::Stable);
    let custom_key = pair_key(&asset_infos, &PairType::Custom("xyk_30".to_string()));

    assert_ne!(xyk_key, stable_key);
    assert_ne!(xyk_key, custom_key);
    assert_ne!(stable_key, custom_key);

    assert_eq!(pair_key(&asset_infos, &PairType::Xyk), pair_key(&asset_infos, &PairType::Xyk));

    let mut expected_key = Vec::<u8>::new();
    expected_key.extend_from_slice(&asset_infos[0].as_bytes());
    expected_key.extend_from_slice(b"\x01");
    expected_key.extend_from_slice(&asset_infos[1].as_bytes());
    expected_key.extend_from_slice(b"\x01");
    expected_key.extend_from_slice(b"xyk");
    assert_eq!(xyk_key, expected_key);
}

#[test]
fn test_case_insensitive_asset_check() {
    let asset_infos = vec![token("contract123"), token("CONTRACT123")];
    assert!(check_asset_infos(&asset_infos, &checks(&asset_infos)).is_err());

    let native_asset_infos = vec![native("uluna"), native("ULUNA")];
    assert!(check_asset_infos(&native_asset_infos, &checks(&native_asset_infos)).is_err());

    let different_asset_infos = vec![token("contract123"), token("different")];
    assert!(check_asset_infos(&different_asset_infos, &checks(&different_asset_infos)).is_ok());
}

#[test]
fn test_pair_key_collision_fix() {
    let asset_infos1 = vec![native("abc"), native("def")];
    let asset_infos2 = vec![native("ab"), native("cdef")];

    let key1 = pair_key(&asset_infos1, &PairType::Xyk);
    let key2 = pair_key(&asset_infos2, &PairType::Xyk);

    assert_ne!(key1, key2, "Key collision detected! Keys should be different with delimiters.");

    let mut expected_key1 = Vec::<u8>::new();
    expected_key1.extend_from_slice(b"abc");
    expected_key1.extend_from_slice(b"\x01");
    expected_key1.extend_from_slice(b"def");
    expected_key1.extend_from_slice(b"\x01");
    expected_key1.extend_from_slice(b"xyk");

    let mut expected_key2 = Vec::<u8>::new();
    expected_key2.extend_from_slice(b"ab");
    expected_key2.extend_from_slice(b"\x01");
    expected_key2.extend_from_slice(b"cdef");
    expected_key2.extend_from_slice(b"\x01");
    expected_key2.extend_from_slice(b"xyk");

    assert_eq!(key1, expected_key1);
    assert_eq!(key2, expected_key2);
}

#[test]
fn test_legacy_start_after() {
    fn new_calc_range_start(start_after: Option<Vec<AssetInfo>>) -> Option<Vec<u8>> {
        start_after.map(|asset_infos| {
            let mut keys: Vec<Vec<u8>> = asset_infos.iter().map(|a| a.as_bytes()).collect();
            keys.sort();
            let mut v = Vec::<u8>::new();
            v.extend_from_slice(&keys[0]);
            v.extend_from_slice(b"\x01");
            v.extend_from_slice(&keys[1]);
            v.extend_from_slice(b"\x01");
            v.extend_from_slice(b"xyk");
            v.push(1);
            v
        })
    }

    for asset_infos in test_cases() {
        assert_eq!(
            new_calc_range_start(Some(copy_asset_infos(&asset_infos))),
            calc_range_start(Some((&asset_infos, &PairType::Xyk)))
        );
    }
}

#[test]
fn pair_type_to_string() {
    assert_eq!(PairType::Xyk.to_string(), "xyk");
    assert_eq!(PairType::Stable.to_string(), "stable");
}

#[test]
fn testing_proper_initialization() {
    let msg = instantiate_msg(
        "owner0000",
        vec![pair_config(123, PairType::Xyk, 100, 10), pair_config(325, PairType::Xyk, 100, 10)],
    );
    assert_eq!(Factory::instantiate(msg).unwrap_err(), ContractError::PairConfigDuplicate {});

    let msg = instantiate_msg("owner0000", vec![pair_config(123, PairType::Xyk, 10_001, 10)]);
    assert_eq!(Factory::instantiate(msg).unwrap_err(), ContractError::PairConfigInvalidFeeBps {});

    let configs = vec![pair_config(325, PairType::Stable, 100, 10), pair_config(123, PairType::Xyk, 100, 10)];
    let f = new_factory("owner0000", configs);
    let config_res = f.query_config();
    assert_eq!(123u64, config_res.token_code_id);
    assert_eq!(
        config_res.pair_configs,
        vec![pair_config(325, PairType::Stable, 100, 10), pair_config(123, PairType::Xyk, 100, 10)]
    );
    assert_eq!("owner0000", config_res.owner);
}

#[test]
fn update_config() {
    let owner = "owner0000".to_string();
    let mut f = new_factory(&owner, vec![pair_config(123, PairType::Xyk, 3, 166)]);

    let res = f
        .execute_update_config(
            &owner,
            UpdateConfig {
                token_code_id: Some(200),
                fee_address: Some(ok("new_fee_addr")),
                generator_address: Some(ok("new_generator_addr")),
                whitelist_code_id: None,
                coin_registry_address: None,
            },
        )
        .unwrap();
    assert_eq!(0, res.messages.len());

    let config_res = f.query_config();
    assert_eq!(200u64, config_res.token_code_id);
    assert_eq!(owner, config_res.owner);
    assert_eq!(String::from("new_fee_addr"), config_res.fee_address.unwrap());
    assert_eq!(String::from("new_generator_addr"), config_res.generator_address.unwrap());

    let res = f
        .execute_update_config(
            &"addr0000".to_string(),
            UpdateConfig {
                token_code_id: None,
                fee_address: None,
                generator_address: None,
                whitelist_code_id: None,
                coin_registry_address: None,
            },
        )
        .unwrap_err();
    assert_eq!(res, ContractError::Unauthorized {});
}

#[test]
fn testing_update_owner() {
    let owner = "owner0000".to_string();
    let mut f = new_factory(&owner, vec![]);
    let new_owner = String::from("new_owner");

    let err = f.propose_new_owner(&new_owner, ok("new_owner"), 100, 1_000).unwrap_err();
    assert_eq!(err.to_string(), "Generic error: Unauthorized");

    f.claim_ownership(&new_owner, 1_000).unwrap_err();

    let res = f.propose_new_owner(&owner, ok("new_owner"), 100, 1_000).unwrap();
    assert_eq!(0, res.messages.len());

    let err = f.claim_ownership(&"invalid_addr".to_string(), 1_000).unwrap_err();
    assert_eq!(err.to_string(), "Generic error: Unauthorized");

    let res = f.claim_ownership(&new_owner, 1_000).unwrap();
    assert_eq!(0, res.messages.len());

    assert_eq!(new_owner, f.query_config().owner);
}

#[test]
fn testing_update_pair_config() {
    let owner = "owner0000".to_string();
    let mut f = new_factory(&owner, vec![pair_config(123, PairType::Xyk, 100, 10)]);
    assert_eq!(f.query_config().pair_configs, vec![pair_config(123, PairType::Xyk, 100, 10)]);

    let pair_config_new = || PairConfig { pool_creation_fee: 1000, ..pair_config(800, PairType::Xyk, 1, 2) };

    let res = f.execute_update_pair_config(&"wrong-addr0000".to_string(), pair_config_new()).unwrap_err();
    assert_eq!(res, ContractError::Unauthorized {});

    let res = f.execute_update_pair_config(&owner, pair_config(123, PairType::Xyk, 3, 10_001)).unwrap_err();
    assert_eq!(res, ContractError::PairConfigInvalidFeeBps {});

    let res = f.execute_update_pair_config(&owner, pair_config_new()).unwrap();
    assert_eq!(0, res.messages.len());
    assert_eq!(f.query_config().pair_configs, vec![pair_config_new()]);

    let custom = || pair_config(100, PairType::Custom("test".to_string()), 10, 20);
    f.execute_update_pair_config(&owner, custom()).unwrap();
    assert_eq!(f.query_config().pair_configs, vec![custom(), pair_config_new()]);
}

#[test]
fn create_pair() {
    let mut f = new_factory("owner0000", vec![pair_config(123, PairType::Xyk, 3, 166)]);
    let assets = vec![native("uluna"), token("asset0001")];

    let res = f
        .execute_create_pair(
            &"addr0000".to_string(),
            uzig(1000),
            &"factory".to_string(),
            PairType::Xyk,
            copy_asset_infos(&assets),
            &checks(&assets),
            None,
        )
        .unwrap();
    assert_eq!(
        attrs(&res),
        vec![
            attr("action", "create_pair"),
            attr("pair", "uluna-asset0001"),
            attr("pair_type", "xyk"),
            attr("pool_creation_fee", "1000"),
            attr("total_funds", "1000"),
        ]
    );

    f.reply(1, &Some(reply_data("pair0000")), Ok(())).unwrap();

    assert_eq!(f.query_pair(&assets, &PairType::Xyk).unwrap(), "pair0000");
}

#[test]
fn register() {
    let owner = "owner0000".to_string();
    let mut f = new_factory(&owner, vec![pair_config(123, PairType::Xyk, 100, 10)]);

    let asset_infos = vec![token("asset0000"), token("asset0001")];
    f.execute_create_pair(
        &"addr0000".to_string(),
        uzig(1000),
        &"factory".to_string(),
        PairType::Xyk,
        copy_asset_infos(&asset_infos),
        &checks(&asset_infos),
        None,
    )
    .unwrap();

    let data = Some(reply_data("pair0000"));
    f.reply(1, &data, Ok(())).unwrap();
    assert_eq!(f.query_pair(&asset_infos, &PairType::Xyk).unwrap(), "pair0000");

    let res = f.reply(1, &data, Ok(())).unwrap_err();
    assert_eq!(res, ContractError::PairWasRegistered {});

    let asset_infos_2 = vec![token("asset0000"), token("asset0002")];
    f.execute_create_pair(
        &"addr0000".to_string(),
        uzig(1000),
        &"factory".to_string(),
        PairType::Xyk,
        copy_asset_infos(&asset_infos_2),
        &checks(&asset_infos_2),
        None,
    )
    .unwrap();
    f.reply(1, &Some(reply_data("pair0001")), Ok(())).unwrap();

    assert_eq!(f.read_pairs(None, None), vec!["pair0000".to_string(), "pair0001".to_string()]);
    assert_eq!(f.read_pairs(None, Some(1)), vec!["pair0000".to_string()]);
    assert_eq!(f.read_pairs(Some((&asset_infos, &PairType::Xyk)), None), vec!["pair0001".to_string()]);

    let res = f
        .deregister(&"wrong_addr0000".to_string(), &asset_infos_2, &checks(&asset_infos_2), &PairType::Xyk)
        .unwrap_err();
    assert_eq!(res, ContractError::Unauthorized {});

    let res = f.deregister(&owner, &asset_infos_2, &checks(&asset_infos_2), &PairType::Xyk).unwrap();
    assert_eq!(attrs(&res)[0], attr("action", "deregister"));

    assert_eq!(f.read_pairs(None, None), vec!["pair0000".to_string()]);
}

#[test]
fn test_pause_pairs_batch() {
    let owner = "owner0000".to_string();
    let pause_authority = "pause_authority".to_string();
    let mut f = xyk_factory(&owner);
    f.add_pause_authorities(&owner, vec![(pause_authority.clone(), ok("pause_authority"))]).unwrap();

    for (i, assets) in two_assets().iter().enumerate() {
        create_and_register(&mut f, assets, &format!("pair{:04}", i));
    }

    let res = f.pause_pairs_batch(&pause_authority, None).unwrap();
    assert!(has_attr(&res, "action", "pause_pairs_batch"));
    assert!(res.attributes.iter().any(|a| (a.key == "paused_count" || a.key == "processed_count") && a.value == "2"));
    assert!(has_attr(&res, "has_more", "false"));
    assert_eq!(res.messages.len(), 2);

    for assets in two_assets() {
        assert!(is_paused(&f, &assets));
    }

    for _ in 0..2 {
        let res = f.pause_pairs_batch(&pause_authority, Some(2)).unwrap();
        assert!(res.attributes.iter().any(|a| (a.key == "paused_count" || a.key == "processed_count") && a.value == "0"));
        assert!(has_attr(&res, "has_more", "false"));
    }
}

#[test]
fn test_unpause_pairs_batch() {
    let owner = "owner0000".to_string();
    let pause_authority = "pause_authority".to_string();
    let mut f = xyk_factory(&owner);
    f.add_pause_authorities(&owner, vec![(pause_authority.clone(), ok("pause_authority"))]).unwrap();

    for (i, assets) in two_assets().iter().enumerate() {
        create_and_register(&mut f, assets, &format!("pair{:04}", i));
    }

    f.pause_pairs_batch(&pause_authority, None).unwrap();
    for assets in two_assets() {
        assert!(is_paused(&f, &assets));
    }

    let res = f.unpause_pairs_batch(&owner, None).unwrap();
    let a = attrs(&res);
    assert_eq!(a[0], attr("action", "unpause_pairs_batch"));
    assert_eq!(a[1], attr("unpaused_count", "2"));
    assert_eq!(a[2], attr("processed_count", "2"));
    assert_eq!(a[3], attr("batch_size", "50"));
    assert_eq!(a[4], attr("has_more", "false"));
    assert_eq!(res.messages.len(), 2);

    for assets in two_assets() {
        assert!(!is_paused(&f, &assets));
    }
}

#[test]
fn test_pause_authority_validation() {
    let owner = "owner0000".to_string();
    let pause_authority = "pause_authority".to_string();
    let unauthorized_user = "unauthorized_user".to_string();
    let mut f = xyk_factory(&owner);

    assert_eq!(f.pause_pairs_batch(&unauthorized_user, None).unwrap_err(), ContractError::NoPauseAuthority {});
    assert_eq!(f.unpause_pairs_batch(&unauthorized_user, None).unwrap_err(), ContractError::NoUnpauseAuthority {});

    f.add_pause_authorities(&owner, vec![(pause_authority.clone(), ok("pause_authority"))]).unwrap();

    let res = f.pause_pairs_batch(&pause_authority, None).unwrap();
    assert_eq!(attrs(&res)[0], attr("action", "pause_pairs_batch"));

    assert_eq!(f.unpause_pairs_batch(&pause_authority, None).unwrap_err(), ContractError::NoUnpauseAuthority {});
}

#[test]
fn test_add_pause_authorities() {
    let owner = "owner0000".to_string();
    let mut f = xyk_factory(&owner);
    let list = || vec![("auth1".to_string(), ok("auth1")), ("auth2".to_string(), ok("auth2"))];

    let res = f.add_pause_authorities(&"unauthorized_user".to_string(), list()).unwrap_err();
    assert_eq!(res, ContractError::Unauthorized {});

    let res = f.add_pause_authorities(&owner, list()).unwrap();
    assert_eq!(attrs(&res)[0], attr("action", "add_pause_authorities"));

    let authorities = f.query_pause_authorities();
    assert_eq!(authorities.len(), 2);
    assert!(authorities.contains(&"auth1".to_string()));
    assert!(authorities.contains(&"auth2".to_string()));
}

#[test]
fn test_pause_individual_pair() {
    let owner = "owner0000".to_string();
    let pause_authority = "pause_authority".to_string();
    let mut f = xyk_factory(&owner);
    f.add_pause_authorities(&owner, vec![(pause_authority.clone(), ok("pause_authority"))]).unwrap();

    let assets = vec![native("uluna"), native("uusd")];
    create_and_register(&mut f, &assets, "pair0000");

    let res = f.pause_pair(&pause_authority, &assets, &checks(&assets), &PairType::Xyk).unwrap();
    assert_eq!(attrs(&res)[0], attr("action", "pause_pair"));
    assert!(is_paused(&f, &assets));

    let res = f.pause_pair(&pause_authority, &assets, &checks(&assets), &PairType::Xyk).unwrap_err();
    assert_eq!(res, ContractError::PairAlreadyPaused {});

    let res = f.unpause_pair(&owner, &assets, &checks(&assets), &PairType::Xyk).unwrap();
    assert_eq!(attrs(&res)[0], attr("action", "unpause_pair"));
    assert!(!is_paused(&f, &assets));

    let res = f.unpause_pair(&owner, &assets, &checks(&assets), &PairType::Xyk).unwrap_err();
    assert_eq!(res, ContractError::PairNotPaused {});
}

#[test]
fn test_pause_all_pairs() {
    let owner = "owner0000".to_string();
    let pause_authority = "pause_authority".to_string();
    let mut f = xyk_factory(&owner);
    f.add_pause_authorities(&owner, vec![(pause_authority.clone(), ok("pause_authority"))]).unwrap();

    let list = vec![
        vec![native("uluna"), native("uusd")],
        vec![token("asset0000"), token("asset0001")],
        vec![native("uluna"), token("asset0000")],
    ];
    for (i, assets) in list.iter().enumerate() {
        create_and_register(&mut f, assets, &format!("pair{:04}", i));
    }

    let res = f.pause_pairs_batch(&pause_authority, None).unwrap();
    assert_eq!(attrs(&res)[0], attr("action", "pause_pairs_batch"));
    assert_eq!(attrs(&res)[1], attr("paused_count", "3"));
    for assets in &list {
        assert!(is_paused(&f, assets));
    }
    assert_eq!(f.query_paused_pairs_count(), 3);

    let res = f.unpause_pairs_batch(&owner, None).unwrap();
    assert_eq!(attrs(&res)[0], attr("action", "unpause_pairs_batch"));
    assert_eq!(attrs(&res)[1], attr("unpaused_count", "3"));
    for assets in &list {
        assert!(!is_paused(&f, assets));
    }
    assert_eq!(f.query_paused_pairs_count(), 0);
}

#[test]
fn test_batch_size_validation() {
    let owner = "owner0000".to_string();
    let pause_authority = "pause_authority".to_string();
    let mut f = xyk_factory(&owner);
    f.add_pause_authorities(&owner, vec![(pause_authority.clone(), ok("pause_authority"))]).unwrap();

    for batch in [None, Some(25), Some(150)] {
        let res = f.pause_pairs_batch(&pause_authority, batch).unwrap();
        assert_eq!(attrs(&res)[0], attr("action", "pause_pairs_batch"));
    }
}

#[test]
fn test_query_functions() {
    let owner = "owner0000".to_string();
    let mut f = xyk_factory(&owner);

    assert_eq!(f.query_pause_authorities().len(), 0);

    f.add_pause_authorities(
        &owner,
        vec![("pause_authority".to_string(), ok("pause_authority")), ("auth2".to_string(), ok("auth2"))],
    )
    .unwrap();
    let authorities = f.query_pause_authorities();
    assert_eq!(authorities.len(), 2);
    assert!(authorities.contains(&"pause_authority".to_string()));
    assert!(authorities.contains(&"auth2".to_string()));

    assert_eq!(f.query_paused_pairs_count(), 0);

    let assets = vec![native("uluna"), native("uusd")];
    assert!(!is_paused(&f, &assets));
}

#[test]
fn test_migration_with_legacy_pairs() {
    let mut f = new_factory("owner0000", vec![]);

    let asset_infos1 = vec![native("uluna"), native("uusd")];
    let asset_infos2 = vec![native("uluna"), token("token_addr")];
    let asset_infos3 = vec![native("uusd"), token("token_addr")];

    let old_key = |assets: &Vec<AssetInfo>| {
        let mut keys: Vec<Vec<u8>> = assets.iter().map(|a| a.as_bytes()).collect();
        keys.sort();
        keys.concat()
    };
    let old_key1 = old_key(&asset_infos1);
    let old_key2 = old_key(&asset_infos2);
    f.pairs.insert(old_key1.clone(), "pair1".to_string());
    f.pair_order.push(old_key1.clone());
    f.pairs.insert(old_key2.clone(), "pair2".to_string());
    f.pair_order.push(old_key2.clone());

    let new_key = pair_key(&asset_infos3, &PairType::Xyk);
    f.pairs.insert(new_key.clone(), "pair3".to_string());
    f.pair_order.push(new_key.clone());
    let custom_key = pair_key(&asset_infos1, &PairType::Custom("concentrated".to_string()));
    f.pairs.insert(custom_key.clone(), "pair4".to_string());
    f.pair_order.push(custom_key.clone());
    let xyk_30_key = pair_key(&asset_infos2, &PairType::Custom("xyk_30".to_string()));
    f.pairs.insert(xyk_30_key.clone(), "pair5".to_string());
    f.pair_order.push(xyk_30_key.clone());

    let info_of = |addr: &str| -> (Vec<AssetInfo>, PairType) {
        match addr {
            "pair1" => (copy_asset_infos(&asset_infos1), PairType::Xyk),
            "pair2" => (copy_asset_infos(&asset_infos2), PairType::Xyk),
            "pair3" => (copy_asset_infos(&asset_infos3), PairType::Xyk),
            "pair4" => (copy_asset_infos(&asset_infos1), PairType::Custom("concentrated".to_string())),
            _ => (copy_asset_infos(&asset_infos2), PairType::Custom("xyk_30".to_string())),
        }
    };
    let infos = |f: &Factory| -> Vec<(Vec<AssetInfo>, PairType)> {
        f.pairs.entries.iter().map(|(_, a)| info_of(a)).collect()
    };

    let all = infos(&f);
    let res = f.migrate(&all, "oroswap-factory".to_string(), "1.0.0".to_string(), "2.0.0".to_string());
    assert!(has_attr(&res, "migrated_pair", "pair1"));
    assert!(has_attr(&res, "migrated_pair", "pair2"));
    assert!(!has_attr(&res, "migrated_pair", "pair3"));
    assert!(!has_attr(&res, "migrated_pair", "pair4"));
    assert!(!has_attr(&res, "migrated_pair", "pair5"));

    assert!(!f.pairs.contains(&old_key1));
    assert!(!f.pairs.contains(&old_key2));

    let new_key1 = pair_key(&asset_infos1, &PairType::Xyk);
    let new_key2 = pair_key(&asset_infos2, &PairType::Xyk);
    let check_all = |f: &Factory| {
        assert_eq!(f.pairs.get(&new_key1).unwrap(), "pair1");
        assert_eq!(f.pairs.get(&new_key2).unwrap(), "pair2");
        assert_eq!(f.pairs.get(&new_key).unwrap(), "pair3");
        assert_eq!(f.pairs.get(&custom_key).unwrap(), "pair4");
        assert_eq!(f.pairs.get(&xyk_30_key).unwrap(), "pair5");
    };
    check_all(&f);
    assert_eq!(
        f.pair_order,
        vec![new_key1.clone(), new_key2.clone(), new_key.clone(), custom_key.clone(), xyk_30_key.clone()]
    );

    let all = infos(&f);
    let res2 = f.migrate(&all, "oroswap-factory".to_string(), "2.0.0".to_string(), "2.0.0".to_string());
    assert!(!res2.attributes.iter().any(|a| a.key == "migrated_pair"));
    check_all(&f);
}

#[test]
fn create_pair_messages_and_fee() {
    let mut f = new_factory("owner0000", vec![pair_config(123, PairType::Xyk, 3, 166)]);
    let assets = vec![native("uluna"), token("asset0001")];

    let err = f
        .execute_create_pair(
            &"addr0000".to_string(),
            vec![],
            &"factory".to_string(),
            PairType::Xyk,
            copy_asset_infos(&assets),
            &checks(&assets),
            None,
        )
        .unwrap_err();
    assert_eq!(err, ContractError::MissingPoolCreationFee {});

    let err = f
        .execute_create_pair(
            &"addr0000".to_string(),
            uzig(999),
            &"factory".to_string(),
            PairType::Xyk,
            copy_asset_infos(&assets),
            &checks(&assets),
            None,
        )
        .unwrap_err();
    assert_eq!(err, ContractError::InvalidPoolCreationFee { required: 1000 });
    assert_eq!(err.to_string(), "Pool creation fee amount is insufficient. Required: 1000");

    let err = f
        .execute_create_pair(
            &"addr0000".to_string(),
            uzig(1000),
            &"factory".to_string(),
            PairType::Stable,
            copy_asset_infos(&assets),
            &checks(&assets),
            None,
        )
        .unwrap_err();
    assert_eq!(err, ContractError::PairConfigNotFound {});

    let same = vec![native("uluna"), native("ULUNA")];
    let err = f
        .execute_create_pair(
            &"addr0000".to_string(),
            uzig(1000),
            &"factory".to_string(),
            PairType::Xyk,
            copy_asset_infos(&same),
            &checks(&same),
            None,
        )
        .unwrap_err();
    assert_eq!(err, ContractError::DoublingAssets {});

    let res = f
        .execute_create_pair(
            &"addr0000".to_string(),
            uzig(1000),
            &"factory".to_string(),
            PairType::Xyk,
            copy_asset_infos(&assets),
            &checks(&assets),
            None,
        )
        .unwrap();
    assert_eq!(res.messages.len(), 1);
    match &res.messages[0] {
        FactoryMsg::InstantiatePair { code_id, admin, .. } => {
            assert_eq!(*code_id, 123);
            assert_eq!(admin, "owner0000");
        },
        _ => panic!("expected a pair instantiation"),
    }

    let err = f.reply(2, &Some(reply_data("pair0000")), Ok(())).unwrap_err();
    assert_eq!(err, ContractError::FailedToParseReply {});
    let err = f.reply(1, &Some(vec![0xff]), Ok(())).unwrap_err();
    assert!(err.to_string().starts_with("Generic error: "));
    let err = f
        .reply(1, &Some(reply_data("pair0000")), Err(StdError { text: "Invalid input: bad address".to_string() }))
        .unwrap_err();
    assert_eq!(err.to_string(), "Invalid input: bad address");
    assert!(f.query_pair(&assets, &PairType::Xyk).is_err());
}

#[test]
fn pause_then_unpause_restores_state() {
    let owner = "owner0000".to_string();
    let mut f = xyk_factory(&owner);
    let assets = vec![native("uluna"), native("uusd")];
    create_and_register(&mut f, &assets, "pair0000");

    f.pause_pair(&owner, &assets, &checks(&assets), &PairType::Xyk).unwrap();
    assert_eq!(f.query_paused_pairs_count(), 1);
    f.unpause_pair(&owner, &assets, &checks(&assets), &PairType::Xyk).unwrap();
    assert_eq!(f.query_paused_pairs_count(), 0);
    assert!(!is_paused(&f, &assets));

    let err = f.pause_pair(&"stranger".to_string(), &assets, &checks(&assets), &PairType::Xyk).unwrap_err();
    assert_eq!(err, ContractError::NoPauseAuthority {});
}

#[test]
fn removed_authority_cannot_pause() {
    let owner = "owner0000".to_string();
    let mut f = xyk_factory(&owner);
    f.add_pause_authorities(&owner, vec![("auth1".to_string(), ok("auth1"))]).unwrap();
    f.remove_pause_authorities(&owner, vec![("auth1".to_string(), ok("auth1"))]).unwrap();
    assert_eq!(f.pause_pairs_batch(&"auth1".to_string(), None).unwrap_err(), ContractError::NoPauseAuthority {});

    let err = f
        .add_pause_authorities(&owner, vec![("bad".to_string(), Err(StdError { text: "Invalid input".to_string() }))])
        .unwrap_err();
    assert_eq!(err, ContractError::InvalidPauseAuthority { address: "bad".to_string() });
}

#[test]
fn pause_batch_reports_more() {
    let owner = "owner0000".to_string();
    let mut f = xyk_factory(&owner);
    let list = vec![
        vec![native("uluna"), native("uusd")],
        vec![token("asset0000"), token("asset0001")],
        vec![native("uluna"), token("asset0000")],
    ];
    for (i, assets) in list.iter().enumerate() {
        create_and_register(&mut f, assets, &format!("pair{:04}", i));
    }

    let res = f.pause_pairs_batch(&owner, Some(2)).unwrap();
    assert!(has_attr(&res, "paused_count", "2"));
    assert!(has_attr(&res, "batch_size", "2"));
    assert!(has_attr(&res, "has_more", "true"));

    let res = f.pause_pairs_batch(&owner, Some(2)).unwrap();
    assert!(has_attr(&res, "paused_count", "1"));
    assert!(has_attr(&res, "has_more", "false"));

    let res = f.unpause_pairs_batch(&owner, Some(1)).unwrap();
    assert!(has_attr(&res, "unpaused_count", "1"));
    assert!(has_attr(&res, "has_more", "true"));
    assert_eq!(f.query_paused_pairs_count(), 2);
}

#[test]
fn factory_execute_routes_calls() {
    let owner = "owner0000".to_string();
    let mut f = xyk_factory(&owner);
    let assets = vec![native("uluna"), native("uusd")];
    let call = |f: &mut Factory, sender: &str, funds: Vec<Coin>, msg: ExecuteMsg| {
        f.execute(&sender.to_string(), funds, &"factory".to_string(), 1_000, msg)
    };

    let res = call(
        &mut f,
        "addr0000",
        uzig(1000),
        ExecuteMsg::CreatePair {
            pair_type: PairType::Xyk,
            asset_infos: copy_asset_infos(&assets),
            token_checks: checks(&assets),
            init_params: None,
        },
    )
    .unwrap();
    assert_eq!(attrs(&res)[0], attr("action", "create_pair"));
    f.reply(1, &Some(reply_data("pair0000")), Ok(())).unwrap();

    let err = call(&mut f, "stranger", vec![], ExecuteMsg::UnpausePairsBatch { batch_size: None }).unwrap_err();
    assert_eq!(err, ContractError::NoUnpauseAuthority {});

    let res = call(
        &mut f,
        &owner,
        vec![],
        ExecuteMsg::PausePair { asset_infos: copy_asset_infos(&assets), token_checks: checks(&assets), pair_type: PairType::Xyk },
    )
    .unwrap();
    assert_eq!(res.messages, vec![FactoryMsg::Pause { contract_addr: "pair0000".to_string() }]);
    assert!(is_paused(&f, &assets));

    let res = call(
        &mut f,
        &owner,
        vec![],
        ExecuteMsg::UpdateConfig {
            token_code_id: Some(7),
            fee_address: None,
            generator_address: None,
            whitelist_code_id: None,
            coin_registry_address: Some(Err(StdError { text: "Invalid input: bad".to_string() })),
        },
    )
    .unwrap_err();
    assert_eq!(res.to_string(), "Invalid input: bad");
    assert_eq!(f.query_config().token_code_id, 123);
}

#[test]
fn create_pair_refusals() {
    let owner = "owner0000".to_string();
    let disabled = PairConfig { is_disabled: true, ..pair_config(200, PairType::Stable, 10, 10) };
    let permissioned = PairConfig { permissioned: true, ..pair_config(300, PairType::Custom("private".to_string()), 10, 10) };
    let mut f = new_factory(&owner, vec![pair_config(123, PairType::Xyk, 3, 166), disabled, permissioned]);
    let assets = vec![native("uluna"), native("uusd")];
    let create = |f: &mut Factory, sender: &str, pair_type: PairType| {
        f.execute_create_pair(
            &sender.to_string(),
            uzig(1000),
            &"factory".to_string(),
            pair_type,
            copy_asset_infos(&assets),
            &checks(&assets),
            None,
        )
    };

    assert_eq!(create(&mut f, "addr0000", PairType::Stable).unwrap_err(), ContractError::PairConfigDisabled {});
    let private = || PairType::Custom("private".to_string());
    assert_eq!(create(&mut f, "addr0000", private()).unwrap_err(), ContractError::Unauthorized {});
    create(&mut f, &owner, private()).unwrap();

    create(&mut f, "addr0000", PairType::Xyk).unwrap();
    f.reply(1, &Some(reply_data("pair0000")), Ok(())).unwrap();
    assert_eq!(create(&mut f, "addr0000", PairType::Xyk).unwrap_err(), ContractError::PairWasCreated {});

    // the same assets under another pair type are another pair
    assert!(f.query_pair(&assets, &PairType::Custom("private".to_string())).is_err());
    assert_eq!(f.query_pairs_by_assets(&assets), vec!["pair0000".to_string()]);
}

#[test]
fn settings_queries() {
    let owner = "owner0000".to_string();
    let disabled = PairConfig { is_disabled: true, ..pair_config(200, PairType::Stable, 10, 10) };
    let mut f = new_factory(&owner, vec![pair_config(123, PairType::Xyk, 3, 166), disabled]);

    let info = f.query_fee_info(&PairType::Xyk).unwrap();
    assert_eq!((info.total_fee_bps, info.maker_fee_bps, info.pool_creation_fee), (3, 166, 1000));
    assert_eq!(info.fee_address, None);
    let err = f.query_fee_info(&PairType::Custom("none".to_string())).unwrap_err();
    assert_eq!(err.text, "oroswap::factory::PairConfig not found");

    assert_eq!(f.query_blacklisted_pair_types(), vec![PairType::Stable]);

    let err = f.query_tracker_config().unwrap_err();
    assert_eq!(err.text, "Generic error: Tracker config is not set in the factory. It can't be provided");
    let err = f.update_tracker_config(&owner, 5, None).unwrap_err();
    assert_eq!(err.to_string(), "Generic error: token_factory_addr is required");
    let err = f.update_tracker_config(&"stranger".to_string(), 5, Some("tf".to_string())).unwrap_err();
    assert_eq!(err, ContractError::Unauthorized {});
    let res = f.update_tracker_config(&owner, 5, Some("tf".to_string())).unwrap();
    assert_eq!(attrs(&res), vec![attr("action", "update_tracker_config"), attr("code_id", "5")]);
    f.update_tracker_config(&owner, 6, None).unwrap();
    let t = f.query_tracker_config().unwrap();
    assert_eq!((t.code_id, t.token_factory_addr.as_str()), (6, "tf"));
}

#[test]
fn register_parsed_outcomes() {
    let mut f = xyk_factory("owner0000");
    let err = f.register_parsed(Ok("pair0000".to_string()), Ok(())).unwrap_err();
    assert_eq!(err.to_string(), "oroswap_factory::state::TmpPairInfo not found");

    let assets = vec![native("uluna"), native("uusd")];
    f.execute_create_pair(
        &"addr0000".to_string(),
        uzig(1000),
        &"factory".to_string(),
        PairType::Xyk,
        copy_asset_infos(&assets),
        &checks(&assets),
        None,
    )
    .unwrap();
    let err = f.register_parsed(Err("unexpected end of data".to_string()), Ok(())).unwrap_err();
    assert_eq!(err.to_string(), "Generic error: unexpected end of data");

    let res = f.register_parsed(Ok("pair0000".to_string()), Ok(())).unwrap();
    assert_eq!(attrs(&res), vec![attr("action", "register"), attr("pair_contract_addr", "pair0000")]);
    assert_eq!(f.query_pair(&assets, &PairType::Xyk).unwrap(), "pair0000");

    let err = f.register_parsed(Ok("pair0001".to_string()), Ok(())).unwrap_err();
    assert_eq!(err, ContractError::PairWasRegistered {});
}

#[test]
fn read_pairs_lists_oldest_first() {
    let owner = "owner0000".to_string();
    let mut f = xyk_factory(&owner);
    let a = vec![token("asset_a0"), token("asset_a1")];
    let b = vec![token("asset_b0"), token("asset_b1")];
    let c = vec![token("asset_c0"), token("asset_c1")];
    create_and_register(&mut f, &c, "pair_c");
    create_and_register(&mut f, &a, "pair_a");
    create_and_register(&mut f, &b, "pair_b");
    assert!(pair_key(&a, &PairType::Xyk) < pair_key(&b, &PairType::Xyk));
    assert!(pair_key(&b, &PairType::Xyk) < pair_key(&c, &PairType::Xyk));

    assert_eq!(f.read_pairs(None, None), vec!["pair_c".to_string(), "pair_a".to_string(), "pair_b".to_string()]);
    assert_eq!(f.read_pairs(None, Some(2)), vec!["pair_c".to_string(), "pair_a".to_string()]);
    assert_eq!(f.read_pairs(Some((&c, &PairType::Xyk)), None), vec!["pair_a".to_string(), "pair_b".to_string()]);
    assert_eq!(f.read_pairs(Some((&c, &PairType::Xyk)), Some(1)), vec!["pair_a".to_string()]);
    assert_eq!(f.read_pairs(Some((&a, &PairType::Xyk)), None), vec!["pair_b".to_string()]);
    assert_eq!(f.read_pairs(Some((&b, &PairType::Xyk)), None), Vec::<String>::new());
    let unknown = vec![token("asset_x0"), token("asset_x1")];
    assert_eq!(f.read_pairs(Some((&unknown, &PairType::Xyk)), None), Vec::<String>::new());

    f.deregister(&owner, &c, &checks(&c), &PairType::Xyk).unwrap();
    assert_eq!(f.read_pairs(None, None), vec!["pair_a".to_string(), "pair_b".to_string()]);
    create_and_register(&mut f, &c, "pair_c2");
    assert_eq!(f.read_pairs(None, None), vec!["pair_a".to_string(), "pair_b".to_string(), "pair_c2".to_string()]);
}

#[test]
fn read_pairs_limit_is_capped() {
    let mut f = xyk_factory("owner0000");
    for i in 0..35u32 {
        let assets = vec![token(&format!("asset{:04}", 100 - i)), token("zz_other")];
        create_and_register(&mut f, &assets, &format!("pair{:04}", i));
    }
    let all = f.read_pairs(None, Some(100));
    assert_eq!(all.len(), 30);
    assert_eq!(all[0], "pair0000");
    assert_eq!(all[29], "pair0029");
    assert_eq!(f.read_pairs(None, None).len(), 10);
}

#[test]
fn full_batch_unpause_restores_factory() {
    let owner = "owner0000".to_string();
    let mut f = xyk_factory(&owner);
    let list = test_cases();
    for (i, assets) in list.iter().enumerate() {
        create_and_register(&mut f, assets, &format!("pair{:04}", i));
    }
    let before = f.read_pairs(None, None);
    f.pause_pairs_batch(&owner, None).unwrap();
    assert_eq!(f.query_paused_pairs_count(), 3);
    let res = f.unpause_pairs_batch(&owner, None).unwrap();
    assert_eq!(attrs(&res)[1], attr("unpaused_count", "3"));
    assert_eq!(f.query_paused_pairs_count(), 0);
    assert_eq!(f.read_pairs(None, None), before);
    for assets in &list {
        assert!(!is_paused(&f, assets));
    }
}

#[test]
fn unpause_by_pause_authority_is_refused() {
    let owner = "owner0000".to_string();
    let pauser = "pause_authority".to_string();
    let mut f = xyk_factory(&owner);
    f.add_pause_authorities(&owner, vec![(pauser.clone(), ok("pause_authority"))]).unwrap();
    let assets = vec![native("uluna"), native("uusd")];
    create_and_register(&mut f, &assets, "pair0000");
    f.pause_pair(&pauser, &assets, &checks(&assets), &PairType::Xyk).unwrap();

    let err = f.unpause_pair(&pauser, &assets, &checks(&assets), &PairType::Xyk).unwrap_err();
    assert_eq!(err, ContractError::NoUnpauseAuthority {});
    assert!(is_paused(&f, &assets));

    let res = f.unpause_pair(&owner, &assets, &checks(&assets), &PairType::Xyk).unwrap();
    assert_eq!(res.messages, vec![FactoryMsg::Unpause { contract_addr: "pair0000".to_string() }]);
    assert!(!is_paused(&f, &assets));
}

#[test]
fn pause_refusals_by_variant() {
    let owner = "owner0000".to_string();
    let mut f = xyk_factory(&owner);
    let assets = vec![native("uluna"), native("uusd")];

    let err = f.pause_pair(&"stranger".to_string(), &assets, &checks(&assets), &PairType::Xyk).unwrap_err();
    assert_eq!(err, ContractError::NoPauseAuthority {});
    let err = f.pause_pair(&owner, &assets, &checks(&assets), &PairType::Xyk).unwrap_err();
    assert_eq!(err, ContractError::Std(StdError { text: "cosmwasm_std::addresses::Addr not found".to_string() }));
    let err = f.unpause_pair(&owner, &assets, &checks(&assets), &PairType::Xyk).unwrap_err();
    assert_eq!(err, ContractError::Std(StdError { text: "cosmwasm_std::addresses::Addr not found".to_string() }));

    let doubled = vec![native("uluna"), native("ULUNA")];
    let err = f.pause_pair(&owner, &doubled, &checks(&doubled), &PairType::Xyk).unwrap_err();
    assert_eq!(err, ContractError::DoublingAssets {});
    let err = f.unpause_pair(&owner, &doubled, &checks(&doubled), &PairType::Xyk).unwrap_err();
    assert_eq!(err, ContractError::DoublingAssets {});
    let err = f.deregister(&owner, &doubled, &checks(&doubled), &PairType::Xyk).unwrap_err();
    assert_eq!(err, ContractError::DoublingAssets {});

    let bad_token = vec![token("bad"), native("uusd")];
    let bad_checks = vec![Err(StdError { text: "Invalid input: human address too short".to_string() }), Ok(())];
    let err = f.pause_pair(&owner, &bad_token, &bad_checks, &PairType::Xyk).unwrap_err();
    assert_eq!(err, ContractError::Std(StdError { text: "Invalid input: human address too short".to_string() }));
    let err = f.deregister(&owner, &bad_token, &bad_checks, &PairType::Xyk).unwrap_err();
    assert_eq!(err, ContractError::Std(StdError { text: "Invalid input: human address too short".to_string() }));
}

#[test]
fn add_authorities_counts_only_new_ones() {
    let owner = "owner0000".to_string();
    let mut f = xyk_factory(&owner);
    let res = f
        .add_pause_authorities(&owner, vec![("a1".to_string(), ok("a1")), ("a2".to_string(), ok("a2"))])
        .unwrap();
    assert_eq!(attrs(&res)[1], attr("added_count", "2"));
    let res = f
        .add_pause_authorities(&owner, vec![("a2".to_string(), ok("a2")), ("a3".to_string(), ok("a3"))])
        .unwrap();
    assert_eq!(attrs(&res)[1], attr("added_count", "1"));
    assert_eq!(f.query_pause_authorities(), vec!["a1".to_string(), "a2".to_string(), "a3".to_string()]);

    let again = || vec![("a2".to_string(), ok("a2")), ("a3".to_string(), ok("a3"))];
    let res = f.add_pause_authorities(&owner, again()).unwrap();
    assert_eq!(attrs(&res)[1], attr("added_count", "0"));
    assert_eq!(f.query_pause_authorities(), vec!["a1".to_string(), "a2".to_string(), "a3".to_string()]);

    let err = f.add_pause_authorities(&owner, vec![("bad".to_string(), Err(StdError { text: "x".to_string() }))]).unwrap_err();
    assert_eq!(err, ContractError::InvalidPauseAuthority { address: "bad".to_string() });
}

#[test]
fn remove_authorities_counts_only_present_ones() {
    let owner = "owner0000".to_string();
    let mut f = xyk_factory(&owner);
    f.add_pause_authorities(&owner, vec![("a1".to_string(), ok("a1")), ("a2".to_string(), ok("a2"))]).unwrap();
    let res = f
        .remove_pause_authorities(&owner, vec![("a1".to_string(), ok("a1")), ("zz".to_string(), ok("zz"))])
        .unwrap();
    assert_eq!(attrs(&res)[1], attr("removed_count", "1"));
    assert_eq!(f.query_pause_authorities(), vec!["a2".to_string()]);

    let err = f.remove_pause_authorities(&"stranger".to_string(), vec![("a2".to_string(), ok("a2"))]).unwrap_err();
    assert_eq!(err, ContractError::Unauthorized {});
    assert_eq!(f.query_pause_authorities(), vec!["a2".to_string()]);
}

#[test]
fn read_pairs_pages_walk_every_pair_once() {
    let mut f = xyk_factory("owner0000");
    let mut created: Vec<(Vec<AssetInfo>, String)> = Vec::new();
    for i in 0..7u32 {
        let assets = vec![token(&format!("asset{:04}", (i * 5) % 7)), token("zz_other")];
        let addr = format!("pair{:04}", i);
        create_and_register(&mut f, &assets, &addr);
        created.push((assets, addr));
    }
    let mut seen: Vec<String> = Vec::new();
    let mut start: Option<Vec<AssetInfo>> = None;
    loop {
        let page = f.read_pairs(start.as_ref().map(|a| (a, &PairType::Xyk)), Some(3));
        if page.is_empty() {
            break;
        }
        let last = page.last().unwrap().clone();
        seen.extend(page);
        start = created.iter().find(|(_, addr)| *addr == last).map(|(a, _)| copy_asset_infos(a));
    }
    let expected: Vec<String> = created.iter().map(|(_, a)| a.clone()).collect();
    assert_eq!(seen, expected);
}

#[test]
fn execute_answers_as_the_operation() {
    let owner = "owner0000".to_string();
    let assets = vec![native("uluna"), native("uusd")];
    let setup = || {
        let mut f = xyk_factory(&owner);
        create_and_register(&mut f, &assets, "pair0000");
        f
    };
    let mut via_execute = setup();
    let mut direct = setup();
    let msg = || ExecuteMsg::PausePair {
        asset_infos: copy_asset_infos(&assets),
        token_checks: checks(&assets),
        pair_type: PairType::Xyk,
    };
    let r1 = via_execute.execute(&owner, vec![], &"factory".to_string(), 0, msg()).unwrap();
    let r2 = direct.pause_pair(&owner, &assets, &checks(&assets), &PairType::Xyk).unwrap();
    assert_eq!(r1.messages, r2.messages);
    assert_eq!(attrs(&r1), attrs(&r2));
    assert_eq!(is_paused(&via_execute, &assets), is_paused(&direct, &assets));

    let e1 = via_execute.execute(&owner, vec![], &"factory".to_string(), 0, msg()).unwrap_err();
    let e2 = direct.pause_pair(&owner, &assets, &checks(&assets), &PairType::Xyk).unwrap_err();
    assert_eq!(e1, e2);
    assert_eq!(e1, ContractError::PairAlreadyPaused {});
}

#[test]
fn migration_onto_an_earlier_stored_key_keeps_every_pair() {
    let mut f = new_factory("owner0000", vec![]);
    let assets1 = vec![native("uluna"), native("uusd")];
    let assets2 = vec![native("uluna"), token("token_addr")];
    let expected1 = pair_key(&assets1, &PairType::Xyk);
    let expected2 = pair_key(&assets2, &PairType::Xyk);
    // The first pair (in key order) is stored under the key the second one expects.
    let raw1 = expected2.clone();
    let mut raw2 = expected2.clone();
    raw2.push(0xff);
    f.pairs.insert(raw1.clone(), "pair1".to_string());
    f.pair_order.push(raw1.clone());
    f.pairs.insert(raw2.clone(), "pair2".to_string());
    f.pair_order.push(raw2.clone());

    let infos = vec![(copy_asset_infos(&assets1), PairType::Xyk), (copy_asset_infos(&assets2), PairType::Xyk)];
    let res = f.migrate(&infos, "oroswap-factory".to_string(), "1.0.0".to_string(), "2.0.0".to_string());
    assert!(has_attr(&res, "migrated_pair", "pair1"));
    assert!(has_attr(&res, "migrated_pair", "pair2"));
    assert_eq!(f.pairs.get(&expected1).unwrap(), "pair1");
    assert_eq!(f.pairs.get(&expected2).unwrap(), "pair2");
    assert_eq!(f.pairs.len(), 2);
    assert_eq!(f.pair_order, vec![expected1.clone(), expected2.clone()]);

    let again: Vec<(Vec<AssetInfo>, PairType)> = f
        .pairs
        .entries
        .iter()
        .map(|(_, a)| if a == "pair1" { (copy_asset_infos(&assets1), PairType::Xyk) } else { (copy_asset_infos(&assets2), PairType::Xyk) })
        .collect();
    let res2 = f.migrate(&again, "oroswap-factory".to_string(), "2.0.0".to_string(), "2.0.0".to_string());
    assert!(!res2.attributes.iter().any(|a| a.key == "migrated_pair"));
    assert_eq!(f.pairs.get(&expected1).unwrap(), "pair1");
    assert_eq!(f.pairs.get(&expected2).unwrap(), "pair2");
    assert_eq!(f.pair_order, vec![expected1, expected2]);
}

#[test]
fn migration_onto_a_later_stored_key_loses_the_moved_pair() {
    let mut g = new_factory("owner0000", vec![]);
    let assets1 = vec![native("uluna"), native("uusd")];
    let assets2 = vec![native("uluna"), token("token_addr")];
    let expected1 = pair_key(&assets1, &PairType::Xyk);
    let expected2 = pair_key(&assets2, &PairType::Xyk);
    // The first pair (in key order) expects the key under which the second is stored.
    let mut raw_a = expected1.clone();
    raw_a.truncate(1);
    assert!(raw_a < expected1);
    g.pairs.insert(raw_a.clone(), "pairA".to_string());
    g.pair_order.push(raw_a.clone());
    g.pairs.insert(expected1.clone(), "pairB".to_string());
    g.pair_order.push(expected1.clone());
    let infos = vec![(copy_asset_infos(&assets1), PairType::Xyk), (copy_asset_infos(&assets2), PairType::Xyk)];
    g.migrate(&infos, "oroswap-factory".to_string(), "1.0.0".to_string(), "2.0.0".to_string());
    assert_eq!(g.pairs.len(), 1);
    assert_eq!(g.pairs.get(&expected2).unwrap(), "pairB");
    assert!(g.pairs.get(&expected1).is_none());
    assert_eq!(g.pair_order, vec![expected2]);
}
