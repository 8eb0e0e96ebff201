//! The fee granter's stored data, messages and errors.
use vstd::prelude::*;
use vstd::string::*;
use crate::asset::Coin;
use crate::error::{Checked, StdError};
use crate::fee_granter::admins::{MAX_ADMINS, names};
use crate::ordered::ByteMap;
use crate::outside::PaymentError;
use crate::ownership::OwnershipProposal;
use crate::text::{dec, decimal};

verus! {

/// The fee granter's settings.
#[derive(PartialEq, Eq, Debug)]
pub struct Config {
    /// The address that may change the admins and transfer ownership.
    pub owner: String,
    /// The addresses that, besides the owner, may grant, revoke and transfer.
    pub admins: Vec<String>,
    /// The denomination in which gas is paid and allowances are granted.
    pub gas_denom: String,
}

/// A message that the fee granter sends.
#[derive(PartialEq, Eq, Debug)]
pub enum GranterMsg {
    /// A protobuf message for the chain, with its type URL.
    Stargate { type_url: String, value: Vec<u8> },
    /// A bank transfer.
    BankSend { to_address: String, amount: Vec<Coin> },
}

/// The calls the fee granter answers, with each given address as the chain's
/// address check answered for it.
pub enum ExecuteMsg {
    /// Grants an allowance of `amount` of the gas denomination to a contract.
    Grant { grantee_contract: Checked, amount: u128, bypass_amount_check: bool },
    /// Revokes a contract's allowance.
    Revoke { grantee_contract: Checked },
    /// Sends coins of the gas denomination, to `receiver` or to the sender.
    TransferCoins { amount: u128, receiver: Option<String> },
    /// Adds and removes admins.
    UpdateAdmins { add: Vec<(String, Checked)>, remove: Vec<(String, Checked)> },
    /// Proposes a new owner.
    ProposeNewOwner { owner: Checked, expires_in: u64 },
    /// Withdraws the ownership proposal.
    DropOwnershipProposal {},
    /// Claims ownership.
    ClaimOwnership {},
}

/// The errors of the fee granter.
#[derive(PartialEq, Eq, Debug)]
pub enum ContractError {
    Std(StdError),
    Payment(PaymentError),
    Unauthorized {},
    InvalidAmount { expected: u128, actual: u128 },
    InsufficientBalance { requested: u128, available: u128 },
}

/// The text that a payment error displays.
pub open spec fn payment_text(e: PaymentError) -> Seq<char> {
    match e {
        PaymentError::MissingDenom(d) => "Must send reserve token '"@ + d@ + "'"@,
        PaymentError::ExtraDenom(d) => "Received unsupported denom '"@ + d@ + "'"@,
        PaymentError::MultipleDenoms => "Sent more than one denomination"@,
        PaymentError::NoFunds => "No funds sent"@,
        PaymentError::NonPayable => "This message does no accept funds"@,
    }
}

/// The text that an error displays.
pub open spec fn error_text(e: ContractError) -> Seq<char> {
    match e {
        ContractError::Std(s) => s.text@,
        ContractError::Payment(p) => payment_text(p),
        ContractError::Unauthorized {} => "Unauthorized"@,
        ContractError::InvalidAmount { expected, actual } => "Invalid amount. Expected: "@ + dec(expected as nat)
            + ", actual: "@ + dec(actual as nat),
        ContractError::InsufficientBalance { requested, available } => "Insufficient balance: requested "@
            + dec(requested as nat) + ", available "@ + dec(available as nat),
    }
}

/// `a`, then `b`, then `c`.
fn concat3(a: &str, b: &str, c: &str) -> (s: String)
    ensures
        s@ == a@ + b@ + c@,
{
    let mut s = String::from_str(a);
    s.append(b);
    s.append(c);
    s
}

impl ContractError {
    /// The text that the error displays.
    pub fn to_string(&self) -> (s: String)
        ensures
            s@ == error_text(*self),
    {
        match self {
            ContractError::Std(e) => e.to_string(),
            ContractError::Payment(p) => match p {
                PaymentError::MissingDenom(d) => concat3("Must send reserve token '", d.as_str(), "'"),
                PaymentError::ExtraDenom(d) => concat3("Received unsupported denom '", d.as_str(), "'"),
                PaymentError::MultipleDenoms => String::from_str("Sent more than one denomination"),
                PaymentError::NoFunds => String::from_str("No funds sent"),
                PaymentError::NonPayable => String::from_str("This message does no accept funds"),
            },
            ContractError::Unauthorized {} => String::from_str("Unauthorized"),
            ContractError::InvalidAmount { expected, actual } => {
                let mut s = concat3("Invalid amount. Expected: ", decimal(*expected).as_str(), ", actual: ");
                s.append(decimal(*actual).as_str());
                s
            },
            ContractError::InsufficientBalance { requested, available } => {
                let mut s = concat3("Insufficient balance: requested ", decimal(*requested).as_str(), ", available ");
                s.append(decimal(*available).as_str());
                s
            },
        }
    }
}

/// The fee granter's stored data.
#[derive(Debug)]
pub struct FeeGranter {
    pub config: Config,
    /// The granted amounts, keyed by the grantee contract's address bytes.
    pub grants: ByteMap<u128>,
    pub ownership_proposal: Option<OwnershipProposal>,
}

/// What the fee granter holds, as plain values.
#[verifier::ext_equal]
pub struct GranterState {
    pub owner: Seq<char>,
    pub admins: Seq<Seq<char>>,
    pub gas_denom: Seq<char>,
    pub grants: Map<Seq<u8>, u128>,
    pub proposal: Option<OwnershipProposal>,
}

impl FeeGranter {
    /// The grants are kept in key order, and the admins are distinct and at
    /// most two.
    pub open spec fn wf(&self) -> bool {
        &&& self.grants.wf()
        &&& names(self.config.admins@).no_duplicates()
        &&& self.config.admins@.len() <= MAX_ADMINS
    }

    /// What the fee granter holds.
    pub open spec fn state(&self) -> GranterState {
        GranterState {
            owner: self.config.owner@,
            admins: names(self.config.admins@),
            gas_denom: self.config.gas_denom@,
            grants: self.grants.map(),
            proposal: self.ownership_proposal,
        }
    }
}

/// Whether `sender` may grant, revoke and transfer: the owner or an admin.
pub open spec fn may_manage(s: GranterState, sender: Seq<char>) -> bool {
    sender == s.owner || s.admins.contains(sender)
}

} // verus!
