//! Errors of the contracts.
use vstd::prelude::*;
use vstd::string::*;

verus! {

/// A standard error, held as the text that it displays.
#[derive(PartialEq, Eq, Debug)]
pub struct StdError {
    pub text: String,
}

/// An address as the chain's address check answered for it: the normalized
/// address, or the error the check gave.
pub type Checked = Result<String, StdError>;

/// The text of a generic error with message `msg`.
pub open spec fn generic_text(msg: Seq<char>) -> Seq<char> {
    "Generic error: "@ + msg
}

/// The text of a failed load of a stored item of kind `kind`.
pub open spec fn not_found_text(kind: Seq<char>) -> Seq<char> {
    kind + " not found"@
}

impl StdError {
    /// A generic error with the message `msg`.
    pub fn generic_err(msg: String) -> (e: StdError)
        ensures
            e.text@ == generic_text(msg@),
    {
        let mut text = String::from_str("Generic error: ");
        text.append(msg.as_str());
        StdError { text }
    }

    /// The error of loading a stored item of kind `kind` that is not there.
    pub fn not_found(kind: &str) -> (e: StdError)
        ensures
            e.text@ == not_found_text(kind@),
    {
        let mut text = String::from_str(kind);
        text.append(" not found");
        StdError { text }
    }

    /// The error's text.
    pub fn to_string(&self) -> (s: String)
        ensures
            s@ == self.text@,
    {
        self.text.clone()
    }
}

/// The kind name under which a missing pair address is reported.
pub open spec fn addr_kind() -> Seq<char> {
    "cosmwasm_std::addresses::Addr"@
}

/// The error for a pair address that is not stored.
pub fn pair_not_found() -> (e: StdError)
    ensures
        e.text@ == not_found_text(addr_kind()),
{
    proof {
        reveal_strlit("cosmwasm_std::addresses::Addr");
    }
    StdError::not_found("cosmwasm_std::addresses::Addr")
}

} // verus!
