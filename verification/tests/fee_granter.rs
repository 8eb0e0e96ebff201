use oroswap_contracts::asset::Coin;
use oroswap_contracts::error::StdError;
use oroswap_contracts::error::Checked;
use oroswap_contracts::fee_granter::admins::{update_admins_with_validation, MAX_ADMINS};
use oroswap_contracts::fee_granter::types::{ContractError, ExecuteMsg, FeeGranter, GranterMsg};
use oroswap_contracts::outside::PaymentError;

const GAS_DENOM: &str = "inj";

fn ok(addr: &str) -> (String, Checked) {
    (addr.to_string(), Ok(addr.to_string()))
}

fn list(addrs: &[&str]) -> Vec<(String, Checked)> {
    addrs.iter().map(|a| ok(a)).collect()
}

fn new_granter(owner: &str, admins: &[&str]) -> Result<FeeGranter, StdError> {
    FeeGranter::instantiate(Ok(owner.to_string()), &list(admins), GAS_DENOM.to_string()).map(|(g, _)| g)
}

fn gas(amount: u128) -> Vec<Coin> {
    vec![Coin { denom: GAS_DENOM.to_string(), amount }]
}

fn s(x: &str) -> String {
    x.to_string()
}

#[test]
fn test_init() {
    let err = new_granter("owner", &["admin1", "admin2", "admin3"]).unwrap_err();
    assert_eq!(err.to_string(), format!("Generic error: Maximum allowed number of admins is {MAX_ADMINS}"));

    let g = new_granter("owner", &["admin1", "admin2"]).unwrap();

    let res = g.transfer_coins(&s("owner"), 5, None).unwrap();
    match &res.messages[0] {
        GranterMsg::BankSend { to_address, amount } => {
            assert_eq!(to_address, "owner");
            assert_eq!(amount, &gas(5));
        },
        _ => panic!("expected a bank transfer"),
    }

    let res = g.transfer_coins(&s("owner"), 5, Some(s("receiver"))).unwrap();
    match &res.messages[0] {
        GranterMsg::BankSend { to_address, amount } => {
            assert_eq!(to_address, "receiver");
            assert_eq!(amount, &gas(5));
        },
        _ => panic!("expected a bank transfer"),
    }

    let err = g.transfer_coins(&s("owner"), 0, Some(s("receiver"))).unwrap_err();
    assert_eq!(err.to_string(), "Generic error: Can't send 0 amount");
}

#[test]
fn test_update_admins() {
    let admin = "admin";
    let err = new_granter("owner", &[admin, "user1", "user2"]).unwrap_err();
    assert_eq!(err.to_string(), format!("Generic error: Maximum allowed number of admins is {MAX_ADMINS}"));

    let err = new_granter("owner", &[admin, admin]).unwrap_err();
    assert_eq!(err.to_string(), format!("Generic error: Admin {admin} already exists"));

    let mut g = new_granter("owner", &[admin]).unwrap();

    g.transfer_coins(&s(admin), 5, None).unwrap();

    let err = g.update_admins(&s("owner"), &list(&["admin2", "admin3"]), &vec![]).unwrap_err();
    assert_eq!(err.to_string(), format!("Generic error: Maximum allowed number of admins is {MAX_ADMINS}"));

    // an admin may grant
    let res = g
        .grant(&s(admin), &gas(10), &s("granter"), &s("test"), 10, false, Ok(10))
        .unwrap();
    assert_eq!(res.messages.len(), 1);

    let err = g.update_admins(&s(admin), &list(&["admin2"]), &vec![]).unwrap_err();
    assert_eq!(ContractError::Unauthorized {}, err);

    let err = g.update_admins(&s("owner"), &list(&[admin]), &vec![]).unwrap_err();
    assert_eq!(err.to_string(), format!("Generic error: Admin {} already exists", admin));

    g.update_admins(&s("owner"), &list(&["admin2"]), &vec![]).unwrap();
    assert_eq!(g.query_config().admins, vec![s(admin), s("admin2")]);

    let res = g.update_admins(&s("owner"), &vec![], &list(&["admin2", "random"])).unwrap();
    assert_eq!(g.query_config().admins, vec![s(admin)]);
    assert_eq!(res.attributes[1].key, "remove_admins");
    assert_eq!(res.attributes[1].value, "admin2,random");
}

#[test]
fn test_change_ownership() {
    let mut g = new_granter("owner", &["admin"]).unwrap();
    let new_owner = s("new_owner");

    let err = g.propose_new_owner(&s("not_owner"), Ok(new_owner.clone()), 100, 1_000).unwrap_err();
    assert_eq!(err.to_string(), "Generic error: Unauthorized");

    let err = g.claim_ownership(&new_owner, 1_000).unwrap_err();
    assert_eq!(err.to_string(), "Generic error: Ownership proposal not found");

    g.propose_new_owner(&s("owner"), Ok(new_owner.clone()), 100, 1_000).unwrap();

    let err = g.claim_ownership(&s("invalid_addr"), 1_000).unwrap_err();
    assert_eq!(err.to_string(), "Generic error: Unauthorized");

    g.claim_ownership(&new_owner, 1_000).unwrap();
    assert_eq!(g.query_config().owner, new_owner);
}

#[test]
fn test_insufficient_balance_prevention() {
    let mut g = new_granter("owner", &[]).unwrap();

    let err = g
        .grant(&s("owner"), &vec![], &s("granter"), &s("grantee_contract"), 1000, true, Ok(100))
        .unwrap_err();
    let error_msg = err.to_string();
    assert!(error_msg.contains("Insufficient balance:"), "Expected 'Insufficient balance:' error, got: {}", error_msg);

    let result = g.grant(&s("owner"), &vec![], &s("granter"), &s("grantee3"), 100, true, Ok(100));
    if let Err(err) = result {
        assert!(!err.to_string().contains("Insufficient balance"));
    }
}

#[test]
fn grant_payment_checks() {
    let mut g = new_granter("owner", &[]).unwrap();
    let grant = |g: &mut FeeGranter, funds: Vec<Coin>, amount: u128| {
        g.grant(&s("owner"), &funds, &s("granter"), &s("grantee"), amount, false, Ok(1_000))
    };

    assert_eq!(grant(&mut g, vec![], 10).unwrap_err(), ContractError::Payment(PaymentError::NoFunds));
    assert_eq!(grant(&mut g, gas(0), 10).unwrap_err(), ContractError::Payment(PaymentError::NoFunds));
    let two = vec![Coin { denom: s("inj"), amount: 5 }, Coin { denom: s("uusd"), amount: 5 }];
    assert_eq!(grant(&mut g, two, 10).unwrap_err(), ContractError::Payment(PaymentError::MultipleDenoms));
    let other = vec![Coin { denom: s("uusd"), amount: 10 }];
    let err = grant(&mut g, other, 10).unwrap_err();
    assert_eq!(err, ContractError::Payment(PaymentError::MissingDenom(s("inj"))));
    assert_eq!(err.to_string(), "Must send reserve token 'inj'");

    let err = grant(&mut g, gas(9), 10).unwrap_err();
    assert_eq!(err, ContractError::InvalidAmount { expected: 10, actual: 9 });
    assert_eq!(err.to_string(), "Invalid amount. Expected: 10, actual: 9");

    let err = g
        .grant(&s("stranger"), &gas(10), &s("granter"), &s("grantee"), 10, false, Ok(1_000))
        .unwrap_err();
    assert_eq!(err, ContractError::Unauthorized {});

    let err = g
        .grant(&s("owner"), &gas(10), &s("granter"), &s("grantee"), 10, false, Err(StdError { text: s("no balance") }))
        .unwrap_err();
    assert_eq!(err.to_string(), "no balance");

    let err = g.grant(&s("owner"), &vec![], &s("granter"), &s("grantee"), 1_001, true, Ok(1_000)).unwrap_err();
    assert_eq!(err.to_string(), "Insufficient balance: requested 1001, available 1000");
}

#[test]
fn grant_revoke_and_grant_again() {
    let mut g = new_granter("owner", &["admin"]).unwrap();

    let res = g.grant(&s("admin"), &gas(10), &s("granter"), &s("grantee"), 10, false, Ok(10)).unwrap();
    assert_eq!(g.query_grant(&s("grantee")), 10);
    match &res.messages[0] {
        GranterMsg::Stargate { type_url, value } => {
            assert_eq!(type_url, "/cosmos.feegrant.v1beta1.MsgGrantAllowance");
            assert!(!value.is_empty());
        },
        _ => panic!("expected a protobuf message"),
    }
    let a: Vec<(String, String)> = res.attributes.iter().map(|a| (a.key.clone(), a.value.clone())).collect();
    assert_eq!(a, vec![(s("action"), s("grant")), (s("grantee_contract"), s("grantee")), (s("amount"), s("10"))]);

    let err = g.grant(&s("admin"), &gas(10), &s("granter"), &s("grantee"), 10, false, Ok(10)).unwrap_err();
    assert_eq!(err.to_string(), "Generic error: Grant already exists for grantee");

    let res = g.revoke(&s("owner"), &s("granter"), &s("grantee")).unwrap();
    assert_eq!(g.query_grant(&s("grantee")), 0);
    match &res.messages[0] {
        GranterMsg::Stargate { type_url, .. } => assert_eq!(type_url, "/cosmos.feegrant.v1beta1.MsgRevokeAllowance"),
        _ => panic!("expected a protobuf message"),
    }

    g.grant(&s("admin"), &vec![], &s("granter"), &s("grantee"), 7, true, Ok(10)).unwrap();
    assert_eq!(g.query_grant(&s("grantee")), 7);

    let err = g.revoke(&s("stranger"), &s("granter"), &s("grantee")).unwrap_err();
    assert_eq!(err, ContractError::Unauthorized {});
    assert_eq!(g.query_grant(&s("grantee")), 7);
}

#[test]
fn instantiate_checks() {
    let err = FeeGranter::instantiate(Ok(s("owner")), &vec![], s("x")).unwrap_err();
    assert_eq!(err.to_string(), "Generic error: Invalid denom length [3,128]: x");

    let err = FeeGranter::instantiate(Err(StdError { text: s("bad owner") }), &vec![], s("inj")).unwrap_err();
    assert_eq!(err.to_string(), "bad owner");

    let (_, res) = FeeGranter::instantiate(Ok(s("owner")), &vec![], s("inj")).unwrap();
    let a: Vec<(String, String)> = res.attributes.iter().map(|a| (a.key.clone(), a.value.clone())).collect();
    assert_eq!(
        a,
        vec![(s("action"), s("instantiate")), (s("contract"), s("oroswap-fee-granter")), (s("gas_denom"), s("inj"))]
    );
}

#[test]
fn admins_update_keeps_order_and_removes() {
    let r = update_admins_with_validation(vec![s("a")], &list(&["b"]), &list(&["a"])).unwrap();
    assert_eq!(r, vec![s("b")]);

    let bad = vec![(s("zz"), Err(StdError { text: s("Invalid input: zz") }))];
    let err = update_admins_with_validation(vec![s("a")], &bad, &vec![]).unwrap_err();
    assert_eq!(err.to_string(), "Invalid input: zz");
    let err = update_admins_with_validation(vec![s("a")], &vec![], &bad).unwrap_err();
    assert_eq!(err.to_string(), "Invalid input: zz");

    // three before the removal are fine when two remain
    let r = update_admins_with_validation(vec![s("a"), s("b")], &list(&["c"]), &list(&["a"])).unwrap();
    assert_eq!(r, vec![s("b"), s("c")]);
}

#[test]
fn granter_execute_routes_calls() {
    let mut g = new_granter("owner", &["admin"]).unwrap();
    let call = |g: &mut FeeGranter, sender: &str, funds: Vec<Coin>, msg: ExecuteMsg| {
        g.execute(&s(sender), &funds, &s("granter"), 1_000, Ok(50), msg)
    };

    let err = call(
        &mut g,
        "admin",
        gas(10),
        ExecuteMsg::Grant { grantee_contract: Err(StdError { text: s("Invalid input: bad") }), amount: 10, bypass_amount_check: false },
    )
    .unwrap_err();
    assert_eq!(err.to_string(), "Invalid input: bad");

    call(&mut g, "admin", gas(10), ExecuteMsg::Grant { grantee_contract: Ok(s("grantee")), amount: 10, bypass_amount_check: false })
        .unwrap();
    assert_eq!(g.query_grant(&s("grantee")), 10);

    let err = call(&mut g, "admin", vec![], ExecuteMsg::Grant { grantee_contract: Ok(s("other")), amount: 60, bypass_amount_check: true })
        .unwrap_err();
    assert_eq!(err, ContractError::InsufficientBalance { requested: 60, available: 50 });

    let err = call(&mut g, "admin", vec![], ExecuteMsg::UpdateAdmins { add: list(&["x"]), remove: vec![] }).unwrap_err();
    assert_eq!(err, ContractError::Unauthorized {});

    call(&mut g, "owner", vec![], ExecuteMsg::Revoke { grantee_contract: Ok(s("grantee")) }).unwrap();
    assert_eq!(g.query_grant(&s("grantee")), 0);

    let err = call(&mut g, "owner", vec![], ExecuteMsg::TransferCoins { amount: 0, receiver: None }).unwrap_err();
    assert_eq!(err.to_string(), "Generic error: Can't send 0 amount");
}
