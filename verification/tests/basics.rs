use oroswap_contracts::asset::{validate_native_denom, AssetInfo, Coin, PairType};
use oroswap_contracts::keys::pair_key;
use oroswap_contracts::pool_initializer::contract::split_funds_exec;
use oroswap_contracts::bytes::{compare_bytes, KeyOrder};
use oroswap_contracts::fee_granter::types::{FeeGranter, GranterMsg};
use oroswap_contracts::keys::sort_keys;
use oroswap_contracts::ordered::ByteMap;
use oroswap_contracts::ownership::{claim_ownership, drop_ownership_proposal, propose_new_owner, OwnershipProposal};
use oroswap_contracts::response::Response;
use oroswap_contracts::text::{bracketed, decimal, join_strings};

fn s(x: &str) -> String {
    x.to_string()
}

/// A protobuf length-delimited field with a short payload.
fn field(tag: u8, payload: &[u8]) -> Vec<u8> {
    let mut v = vec![tag, payload.len() as u8];
    v.extend_from_slice(payload);
    v
}

#[test]
fn decimal_and_join() {
    assert_eq!(decimal(0), "0");
    assert_eq!(decimal(1000), "1000");
    assert_eq!(decimal(u128::MAX), "340282366920938463463374607431768211455");
    assert_eq!(join_strings(&vec![s("uluna"), s("asset0001")], "-"), "uluna-asset0001");
    assert_eq!(join_strings(&vec![], ","), "");
    assert_eq!(bracketed(&vec![1, 20, 255]), "[1, 20, 255]");
}

#[test]
fn byte_order() {
    assert_eq!(compare_bytes(b"ab", b"abc"), KeyOrder::Before);
    assert_eq!(compare_bytes(b"abd", b"abc"), KeyOrder::After);
    assert_eq!(compare_bytes(b"abc", b"abc"), KeyOrder::Same);
    assert_eq!(sort_keys(&vec![b"c".to_vec(), b"a".to_vec(), b"b".to_vec()]), vec![b"a".to_vec(), b"b".to_vec(), b"c".to_vec()]);
}

#[test]
fn byte_map_keeps_order() {
    let mut m: ByteMap<u32> = ByteMap::new();
    m.insert(b"b".to_vec(), 2);
    m.insert(b"a".to_vec(), 1);
    m.insert(b"c".to_vec(), 3);
    m.insert(b"a".to_vec(), 10);
    assert_eq!(m.len(), 3);
    let keys: Vec<Vec<u8>> = m.entries.iter().map(|e| e.0.clone()).collect();
    assert_eq!(keys, vec![b"a".to_vec(), b"b".to_vec(), b"c".to_vec()]);
    assert_eq!(m.get(&b"a".to_vec()), Some(&10));
    assert_eq!(m.remove(&b"b".to_vec()), Some(2));
    assert_eq!(m.remove(&b"b".to_vec()), None);
    assert!(!m.contains(&b"b".to_vec()));
}

#[test]
fn native_denoms() {
    assert!(validate_native_denom(&s("uluna")).is_ok());
    assert!(validate_native_denom(&s("ibc/27394FB092D2ECCD56123C74F36E4C1F926001CEADA9CA97EA622B25F41E5EB2")).is_ok());
    assert_eq!(validate_native_denom(&s("rc")).unwrap_err().text, "Generic error: Invalid denom length [3,128]: rc");
    assert_eq!(
        validate_native_denom(&s("1uluna")).unwrap_err().text,
        "Generic error: First character is not ASCII alphabetic: 1uluna"
    );
    assert_eq!(
        validate_native_denom(&s("ulu#na")).unwrap_err().text,
        "Generic error: Not all characters are ASCII alphanumeric or one of:  /  :  .  _  -: ulu#na"
    );
}

#[test]
fn asset_names() {
    let a = AssetInfo::Token { contract_addr: s("Contract1") };
    let b = AssetInfo::Token { contract_addr: s("contract1") };
    let c = AssetInfo::NativeToken { denom: s("contract1") };
    assert!(a.case_insensitive_eq(&b));
    assert!(!b.case_insensitive_eq(&c));
    assert_eq!(c.to_string(), "contract1");
    assert_eq!(PairType::Custom(s("concentrated")).to_string(), "custom-concentrated");
}

#[test]
fn ownership_transfer() {
    let mut proposal: Option<OwnershipProposal> = None;
    let owner = s("owner");
    let err = propose_new_owner::<()>(&mut proposal, &owner, &owner, Ok(s("owner")), 10, 100).unwrap_err();
    assert_eq!(err.text, "Generic error: New owner cannot be same");
    let err = propose_new_owner::<()>(&mut proposal, &owner, &owner, Ok(s("new")), 1209601, 100).unwrap_err();
    assert_eq!(err.text, "Generic error: Parameter expires_in cannot be higher than 1209600");

    let res: Response<()> = propose_new_owner(&mut proposal, &owner, &owner, Ok(s("new")), 10, 100).unwrap();
    assert_eq!(res.attributes[1].value, "new");
    assert_eq!(proposal.as_ref().unwrap().ttl, 110);

    let err = claim_ownership::<()>(&mut proposal, &s("new"), 111).unwrap_err();
    assert_eq!(err.text, "Generic error: Ownership proposal expired");
    let (new_owner, _) = claim_ownership::<()>(&mut proposal, &s("new"), 110).unwrap();
    assert_eq!(new_owner, "new");
    assert!(proposal.is_none());

    propose_new_owner::<()>(&mut proposal, &owner, &owner, Ok(s("new")), 10, 100).unwrap();
    let err = drop_ownership_proposal::<()>(&mut proposal, &s("new"), &owner).unwrap_err();
    assert_eq!(err.text, "Generic error: Unauthorized");
    drop_ownership_proposal::<()>(&mut proposal, &owner, &owner).unwrap();
    assert!(proposal.is_none());
}

#[test]
fn fee_allowance_messages_are_protobuf() {
    let (mut g, _) = FeeGranter::instantiate(Ok(s("owner")), &vec![], s("inj")).unwrap();
    let res = g.grant(&s("owner"), &vec![], &s("granter"), &s("grantee"), 10, true, Ok(10)).unwrap();
    let coin = [field(0x0a, b"inj"), field(0x12, b"10")].concat();
    let allowance = field(0x0a, &coin);
    let any = [field(0x0a, b"/cosmos.feegrant.v1beta1.BasicAllowance"), field(0x12, &allowance)].concat();
    let expected = [field(0x0a, b"granter"), field(0x12, b"grantee"), field(0x1a, &any)].concat();
    match &res.messages[0] {
        GranterMsg::Stargate { value, .. } => assert_eq!(value, &expected),
        _ => panic!("expected a protobuf message"),
    }

    let res = g.revoke(&s("owner"), &s("granter"), &s("grantee")).unwrap();
    let expected = [field(0x0a, b"granter"), field(0x12, b"grantee")].concat();
    match &res.messages[0] {
        GranterMsg::Stargate { value, .. } => assert_eq!(value, &expected),
        _ => panic!("expected a protobuf message"),
    }
}

#[test]
fn pair_key_ignores_asset_order() {
    let a = vec![AssetInfo::NativeToken { denom: s("uusd") }, AssetInfo::Token { contract_addr: s("token") }];
    let b = vec![AssetInfo::Token { contract_addr: s("token") }, AssetInfo::NativeToken { denom: s("uusd") }];
    assert_eq!(pair_key(&a, &PairType::Stable), pair_key(&b, &PairType::Stable));
    assert_ne!(pair_key(&a, &PairType::Stable), pair_key(&a, &PairType::Xyk));
}

#[test]
fn revoke_twice_is_revoke_once() {
    let (mut g, _) = FeeGranter::instantiate(Ok(s("owner")), &vec![], s("inj")).unwrap();
    g.grant(&s("owner"), &vec![], &s("granter"), &s("a"), 3, true, Ok(10)).unwrap();
    g.grant(&s("owner"), &vec![], &s("granter"), &s("b"), 4, true, Ok(10)).unwrap();
    g.revoke(&s("owner"), &s("granter"), &s("a")).unwrap();
    g.revoke(&s("owner"), &s("granter"), &s("a")).unwrap();
    assert_eq!(g.query_grant(&s("a")), 0);
    assert_eq!(g.query_grant(&s("b")), 4);
}

#[test]
fn split_keeps_every_amount() {
    let funds = vec![
        Coin { denom: s("uzig"), amount: 250 },
        Coin { denom: s("uatom"), amount: 9 },
        Coin { denom: s("uzig"), amount: 60 },
    ];
    let (f, l) = split_funds_exec(&funds, &s("uzig"), 100);
    let total = |v: &Vec<Coin>, d: &str| -> u128 { v.iter().filter(|c| c.denom == d).map(|c| c.amount).sum() };
    for d in ["uzig", "uatom"] {
        assert_eq!(total(&f, d) + total(&l, d), total(&funds, d));
    }
    assert_eq!(total(&f, "uatom"), 0);
    assert_eq!(total(&f, "uzig"), 160);
}
