use oroswap_contracts::asset::{Asset, AssetInfo, Coin, PairType};
use oroswap_contracts::error::StdError;
use oroswap_contracts::pool_initializer::contract::{cw20_transfers_exec, split_funds_exec};
use oroswap_contracts::pool_initializer::types::{
    ContractError, ExecuteMsg, PoolInitializer, PoolMsg, ProvideLiquidityParams, QueryMsg,
};

fn s(x: &str) -> String {
    x.to_string()
}

fn native(denom: &str) -> AssetInfo {
    AssetInfo::NativeToken { denom: s(denom) }
}

fn token(addr: &str) -> AssetInfo {
    AssetInfo::Token { contract_addr: s(addr) }
}

fn coin(denom: &str, amount: u128) -> Coin {
    Coin { denom: s(denom), amount }
}

fn new_initializer() -> PoolInitializer {
    PoolInitializer::instantiate(&s("admin"), &s("factory_addr"), Ok(s("factory_addr")), 101000000, s("uzig"))
        .unwrap()
        .0
}

fn params(assets: Vec<Asset>, receiver: Option<String>) -> ProvideLiquidityParams {
    ProvideLiquidityParams { assets, slippage_tolerance: Some(10_000_000_000_000_000), receiver, min_lp_to_receive: None }
}

#[test]
fn test_instantiate() {
    let p = new_initializer();
    let config = p.query(QueryMsg::Config {});
    assert_eq!(config.factory_addr, "factory_addr");
    assert_eq!(config.pair_creation_fee, 101000000);
    assert_eq!(config.fee_denom, "uzig");
    assert_eq!(config.owner, "admin");
}

#[test]
fn fee_is_split_from_liquidity() {
    let mut p = new_initializer();
    let funds = vec![coin("uzig", 151000000), coin("uatom", 1000000)];
    let assets = vec![
        Asset { info: native("uzig"), amount: 50000000 },
        Asset { info: native("uatom"), amount: 1000000 },
    ];
    let res = p
        .execute_create_pair_and_provide_liquidity(
            &s("user"),
            &funds,
            PairType::Xyk,
            vec![native("uzig"), native("uatom")],
            None,
            params(assets, None),
        )
        .unwrap();
    match &res.messages[0] {
        PoolMsg::CreatePair { factory_addr, funds, .. } => {
            assert_eq!(factory_addr, "factory_addr");
            assert_eq!(funds, &vec![coin("uzig", 101000000)]);
        },
        _ => panic!("expected a pair creation"),
    }
    let pending = p.pending.as_ref().unwrap();
    assert_eq!(pending.funds, vec![coin("uzig", 50000000), coin("uatom", 1000000)]);
    assert!(pending.cw20_messages.is_empty());
    assert_eq!(res.attributes[0].value, "create_pair_and_provide_liquidity");
    assert_eq!(res.attributes[1].value, "user");
}

#[test]
fn split_funds_cases() {
    let (f, l) = split_funds_exec(&vec![coin("uzig", 100), coin("uzig", 40)], &s("uzig"), 100);
    assert_eq!(f, vec![coin("uzig", 100), coin("uzig", 40)]);
    assert!(l.is_empty());

    let (f, l) = split_funds_exec(&vec![coin("uatom", 7), coin("uzig", 150)], &s("uzig"), 100);
    assert_eq!(f, vec![coin("uzig", 100)]);
    assert_eq!(l, vec![coin("uatom", 7), coin("uzig", 50)]);

    let t = cw20_transfers_exec(&vec![
        Asset { info: token("token1"), amount: 100000 },
        Asset { info: native("uzig"), amount: 5 },
        Asset { info: token("token2"), amount: 200000 },
    ]);
    assert_eq!(t, vec![(s("token1"), 100000), (s("token2"), 200000)]);
}

#[test]
fn invalid_inputs_are_refused() {
    let mut p = new_initializer();
    let err = p
        .execute_create_pair_and_provide_liquidity(&s("user"), &vec![], PairType::Xyk, vec![native("uzig")], None, params(vec![], None))
        .unwrap_err();
    assert_eq!(err, ContractError::InvalidAssetInfo {});
    assert_eq!(err.to_string(), "Invalid asset info");

    let err = p
        .execute_create_pair_and_provide_liquidity(
            &s("user"),
            &vec![],
            PairType::Xyk,
            vec![native("uzig"), native("uatom")],
            None,
            params(vec![Asset { info: native("uzig"), amount: 1 }], None),
        )
        .unwrap_err();
    assert_eq!(err, ContractError::InvalidInitialLiquidity {});
    assert!(p.pending.is_none());
}

#[test]
fn reply_collects_tokens_and_provides_liquidity() {
    let mut p = new_initializer();
    let assets = vec![
        Asset { info: token("token1"), amount: 100000 },
        Asset { info: token("token2"), amount: 200000 },
    ];
    p.execute_create_pair_and_provide_liquidity(
        &s("user"),
        &vec![coin("uzig", 101000000)],
        PairType::Xyk,
        vec![token("token1"), token("token2")],
        None,
        params(assets, None),
    )
    .unwrap();

    let err = p.reply(1, &s("initializer"), Err(StdError { text: s("not found") })).unwrap_err();
    assert_eq!(err, ContractError::FailedToQueryFactory {});

    let res = p.reply(1, &s("initializer"), Ok(s("pair0000"))).unwrap();
    assert_eq!(res.messages.len(), 5);
    assert_eq!(
        res.messages[0],
        PoolMsg::Cw20TransferFrom { token: s("token1"), owner: s("user"), recipient: s("initializer"), amount: 100000 }
    );
    assert_eq!(
        res.messages[3],
        PoolMsg::Cw20IncreaseAllowance { token: s("token2"), spender: s("pair0000"), amount: 200000 }
    );
    match &res.messages[4] {
        PoolMsg::ProvideLiquidity { pair_addr, receiver, funds, .. } => {
            assert_eq!(pair_addr, "pair0000");
            // with no receiver given, the LP tokens go to the caller
            assert_eq!(receiver, &Some(s("user")));
            assert!(funds.is_empty());
        },
        _ => panic!("expected a liquidity provision"),
    }
    assert!(p.pending.is_some());

    let res = p.reply(2, &s("initializer"), Ok(s("pair0000"))).unwrap();
    assert_eq!(res.attributes[0].value, "liquidity_provided");
    assert!(p.pending.is_none());

    let err = p.reply(1, &s("initializer"), Ok(s("pair0000"))).unwrap_err();
    assert_eq!(err.to_string(), "oroswap_pool_initializer::state::PendingLiquidity not found");
    assert_eq!(p.reply(7, &s("initializer"), Ok(s("pair0000"))).unwrap_err(), ContractError::InvalidReplyId {});
}

#[test]
fn test_lp_token_receiver_with_specified_address() {
    let mut p = new_initializer();
    let assets = vec![
        Asset { info: native("uzig"), amount: 1000000 },
        Asset { info: native("uatom"), amount: 1000000 },
    ];
    p.execute_create_pair_and_provide_liquidity(
        &s("user"),
        &vec![coin("uzig", 102000000), coin("uatom", 1000000)],
        PairType::Xyk,
        vec![native("uzig"), native("uatom")],
        None,
        params(assets, Some(s("specified_receiver_addr"))),
    )
    .unwrap();
    let res = p.reply(1, &s("initializer"), Ok(s("pair0000"))).unwrap();
    assert_eq!(res.messages.len(), 1);
    match &res.messages[0] {
        PoolMsg::ProvideLiquidity { receiver, funds, .. } => {
            assert_eq!(receiver, &Some(s("specified_receiver_addr")));
            assert_eq!(funds, &vec![coin("uzig", 1000000), coin("uatom", 1000000)]);
        },
        _ => panic!("expected a liquidity provision"),
    }
}

#[test]
fn update_config_and_recovery_are_owner_only() {
    let mut p = new_initializer();
    let err = p
        .execute(&s("user"), &vec![], ExecuteMsg::UpdateConfig { factory_addr: None, pair_creation_fee: Some(5), fee_denom: None })
        .unwrap_err();
    assert_eq!(err, ContractError::Unauthorized {});

    let res = p
        .execute(
            &s("admin"),
            &vec![],
            ExecuteMsg::UpdateConfig { factory_addr: Some(Ok(s("factory2"))), pair_creation_fee: Some(5), fee_denom: None },
        )
        .unwrap();
    assert_eq!(res.attributes[1].value, "factory2");
    assert_eq!(res.attributes[2].value, "5");
    assert_eq!(p.query_config().pair_creation_fee, 5);

    let err = p.execute(&s("admin"), &vec![], ExecuteMsg::EmergencyRecovery {}).unwrap_err();
    assert_eq!(err, ContractError::NoPendingLiquidity {});

    p.execute(
        &s("user"),
        &vec![coin("uzig", 8)],
        ExecuteMsg::CreatePairAndProvideLiquidity {
            pair_type: PairType::Xyk,
            asset_infos: vec![native("uzig"), native("uatom")],
            init_params: None,
            liquidity: params(vec![Asset { info: native("uzig"), amount: 3 }, Asset { info: native("uatom"), amount: 0 }], None),
        },
    )
    .unwrap();
    let res = p.execute(&s("admin"), &vec![], ExecuteMsg::EmergencyRecovery {}).unwrap();
    assert_eq!(res.messages, vec![PoolMsg::BankSend { to_address: s("user"), coins: vec![coin("uzig", 3)] }]);
    assert!(p.pending.is_none());
}
