//! Calls into outside crates: the reply parser and the payment check of
//! `cw-utils`, and the fee allowance messages of `cosmos-sdk-proto`.
use vstd::prelude::*;
use crate::asset::Coin;
use cosmos_sdk_proto::prost::{Message, Name};
use cosmos_sdk_proto::cosmos::feegrant::v1beta1::{BasicAllowance, MsgGrantAllowance, MsgRevokeAllowance};

verus! {

/// The contract address that `cw_utils::parse_instantiate_response_data`
/// reads from the protobuf bytes of an instantiation reply, or the text of
/// the error it reports.
pub uninterp spec fn instantiate_reply_address(data: Seq<u8>) -> Result<Seq<char>, Seq<char>>;

/// Calls `cw_utils::parse_instantiate_response_data` on `data` and keeps the
/// contract address it decodes; on failure, the text of its error. Claimed:
/// the outcome is a function of `data` alone, named `instantiate_reply_address`.
#[verifier::external_body]
pub(crate) fn parse_instantiate_reply(data: &[u8]) -> (r: Result<String, String>)
    ensures
        r is Ok <==> instantiate_reply_address(data@) is Ok,
        r matches Ok(a) ==> instantiate_reply_address(data@)->Ok_0 == a@,
        r matches Err(e) ==> instantiate_reply_address(data@)->Err_0 == e@,
{
    match cw_utils::parse_instantiate_response_data(data) {
        Ok(res) => Ok(res.contract_address),
        Err(e) => Err(format!("{e}")),
    }
}

/// Why a payment check failed.
#[derive(PartialEq, Eq, Debug)]
pub enum PaymentError {
    MissingDenom(String),
    ExtraDenom(String),
    MultipleDenoms,
    NoFunds,
    NonPayable,
}

/// Calls `cw_utils::must_pay` on the coins sent. As its source shows, it asks for
/// exactly one coin: no coin, or one coin of amount zero, gives `NoFunds`; two
/// or more give `MultipleDenoms`; one coin of another denomination gives
/// `MissingDenom(denom)`; otherwise the coin's amount.
#[verifier::external_body]
pub(crate) fn must_pay(funds: &Vec<Coin>, denom: &String) -> (r: Result<u128, PaymentError>)
    ensures
        funds@.len() == 0 ==> r matches Err(PaymentError::NoFunds),
        funds@.len() == 1 && funds@[0].amount == 0 ==> r matches Err(PaymentError::NoFunds),
        funds@.len() >= 2 ==> r matches Err(PaymentError::MultipleDenoms),
        funds@.len() == 1 && funds@[0].amount != 0 && funds@[0].denom@ == denom@ ==> r is Ok && r->Ok_0 == funds@[0].amount,
        funds@.len() == 1 && funds@[0].amount != 0 && funds@[0].denom@ != denom@ ==> r matches Err(PaymentError::MissingDenom(_)),
        r is Err && r->Err_0 is MissingDenom ==> r->Err_0->MissingDenom_0@ == denom@,
{
    let info = cosmwasm_std::MessageInfo {
        sender: cosmwasm_std::Addr::unchecked(""),
        funds: funds.iter().map(|c| cosmwasm_std::Coin::new(c.amount, c.denom.clone())).collect(),
    };
    match cw_utils::must_pay(&info, denom) {
        Ok(amount) => Ok(amount.u128()),
        Err(cw_utils::PaymentError::MissingDenom(d)) => Err(PaymentError::MissingDenom(d)),
        Err(cw_utils::PaymentError::ExtraDenom(d)) => Err(PaymentError::ExtraDenom(d)),
        Err(cw_utils::PaymentError::MultipleDenoms {}) => Err(PaymentError::MultipleDenoms),
        Err(cw_utils::PaymentError::NoFunds {}) => Err(PaymentError::NoFunds),
        Err(cw_utils::PaymentError::NonPayable {}) => Err(PaymentError::NonPayable),
    }
}

/// The protobuf bytes of a `MsgGrantAllowance` from `granter` to `grantee`
/// holding a `BasicAllowance` whose spend limit is `amount` of `denom`, as
/// `cosmos-sdk-proto` encodes it.
pub uninterp spec fn grant_allowance_bytes(granter: Seq<char>, grantee: Seq<char>, denom: Seq<char>, amount: Seq<char>) -> Seq<u8>;

/// The protobuf bytes of a `MsgRevokeAllowance` from `granter` to `grantee`, as
/// `cosmos-sdk-proto` encodes it.
pub uninterp spec fn revoke_allowance_bytes(granter: Seq<char>, grantee: Seq<char>) -> Seq<u8>;

/// Encodes, with `cosmos_sdk_proto` (`prost::Message::encode_to_vec`), a
/// `MsgGrantAllowance` from `granter` to `grantee` whose allowance is a
/// `BasicAllowance` packed in an `Any` with its type URL, with a spend limit
/// of `amount` of `denom` and no expiration. Claimed: the bytes are a function
/// of the four texts, named `grant_allowance_bytes`.
#[verifier::external_body]
pub(crate) fn encode_grant_allowance(granter: &String, grantee: &String, denom: &String, amount: &String) -> (r: Vec<u8>)
    ensures
        r@ == grant_allowance_bytes(granter@, grantee@, denom@, amount@),
{
    let allowance = BasicAllowance {
        spend_limit: vec![cosmos_sdk_proto::cosmos::base::v1beta1::Coin { denom: denom.clone(), amount: amount.clone() }],
        expiration: None,
    };
    let any = cosmos_sdk_proto::Any { type_url: BasicAllowance::type_url(), value: allowance.encode_to_vec() };
    MsgGrantAllowance { granter: granter.clone(), grantee: grantee.clone(), allowance: Some(any) }.encode_to_vec()
}

/// Encodes, with `cosmos_sdk_proto` (`prost::Message::encode_to_vec`), a
/// `MsgRevokeAllowance` from `granter` to `grantee`. Claimed: the bytes are a
/// function of the two texts, named `revoke_allowance_bytes`.
#[verifier::external_body]
pub(crate) fn encode_revoke_allowance(granter: &String, grantee: &String) -> (r: Vec<u8>)
    ensures
        r@ == revoke_allowance_bytes(granter@, grantee@),
{
    MsgRevokeAllowance { granter: granter.clone(), grantee: grantee.clone() }.encode_to_vec()
}

/// The type URL that `prost::Name::type_url` gives `MsgGrantAllowance`: a slash,
/// then its package `cosmos.feegrant.v1beta1`, a dot and its name.
#[verifier::external_body]
pub(crate) fn grant_allowance_type_url() -> (r: String)
    ensures
        r@ == "/cosmos.feegrant.v1beta1.MsgGrantAllowance"@,
{
    MsgGrantAllowance::type_url()
}

/// The type URL that `prost::Name::type_url` gives `MsgRevokeAllowance`: a slash,
/// then its package `cosmos.feegrant.v1beta1`, a dot and its name.
#[verifier::external_body]
pub(crate) fn revoke_allowance_type_url() -> (r: String)
    ensures
        r@ == "/cosmos.feegrant.v1beta1.MsgRevokeAllowance"@,
{
    MsgRevokeAllowance::type_url()
}

} // verus!
