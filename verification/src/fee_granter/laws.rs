//! Properties of the fee granter that span its operations.
use vstd::prelude::*;
use crate::asset::utf8;
use crate::asset::Coin;
use crate::error::StdError;
use crate::fee_granter::contract::{execute_outcome, granted_state, revoked_state};
use crate::fee_granter::types::{ContractError, ExecuteMsg, FeeGranter, GranterMsg, GranterState, may_manage};
use crate::response::Response;

verus! {

/// After a grant to `grantee`, the grantee holds exactly the granted amount,
/// so a second grant to it is refused; revoking it then leaves no grant for
/// the grantee and every other grant as it was before.
pub proof fn lemma_grant_then_revoke(s: GranterState, grantee: Seq<char>, amount: u128)
    ensures
        granted_state(s, grantee, amount).grants.contains_key(utf8(grantee)),
        granted_state(s, grantee, amount).grants[utf8(grantee)] == amount,
        !revoked_state(granted_state(s, grantee, amount), grantee).grants.contains_key(utf8(grantee)),
        revoked_state(granted_state(s, grantee, amount), grantee) == revoked_state(s, grantee),
{
    assert(s.grants.insert(utf8(grantee), amount).remove(utf8(grantee)) =~= s.grants.remove(utf8(grantee)));
}

/// Revoking twice is the same as revoking once, and a revoke leaves the
/// other grantees' grants and every setting alone.
pub proof fn lemma_revoke_idempotent(s: GranterState, grantee: Seq<char>, other: Seq<u8>)
    ensures
        revoked_state(revoked_state(s, grantee), grantee) == revoked_state(s, grantee),
        other != utf8(grantee) ==> revoked_state(s, grantee).grants.contains_key(other) == s.grants.contains_key(other),
        other != utf8(grantee) && s.grants.contains_key(other) ==> revoked_state(s, grantee).grants[other] == s.grants[other],
        revoked_state(s, grantee).owner == s.owner && revoked_state(s, grantee).admins == s.admins,
{
    assert(s.grants.remove(utf8(grantee)).remove(utf8(grantee)) =~= s.grants.remove(utf8(grantee)));
}

/// Of all the calls, only grants and revokes change the grants, and only by
/// the owner or an admin; only the owner's update of the admins changes the
/// admins; and only claiming ownership changes the owner.
pub proof fn lemma_calls_keep_what_they_do_not_own(
    old: FeeGranter,
    new: FeeGranter,
    sender: String,
    funds: Vec<Coin>,
    contract_addr: String,
    now: u64,
    contract_balance: Result<u128, StdError>,
    msg: ExecuteMsg,
    r: Result<Response<GranterMsg>, ContractError>,
)
    requires
        old.wf(),
        execute_outcome(old, new, sender, funds, contract_addr, now, contract_balance, msg, r),
    ensures
        !(msg is Grant || msg is Revoke) ==> new.state().grants == old.state().grants,
        !may_manage(old.state(), sender@) ==> new.state().grants == old.state().grants,
        !(msg is UpdateAdmins) || sender@ != old.config.owner@ ==> new.state().admins == old.state().admins,
        !(msg is ClaimOwnership) ==> new.state().owner == old.state().owner,
{
}

} // verus!
