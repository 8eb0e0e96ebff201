//! Two-step transfer of contract ownership: the owner proposes a new owner,
//! who then claims ownership before the proposal expires.
use vstd::prelude::*;
use vstd::string::*;
use crate::error::{StdError, generic_text};
use crate::response::Response;
use crate::text::{dec, decimal};

verus! {

/// A pending transfer of ownership.
#[derive(PartialEq, Eq, Debug)]
pub struct OwnershipProposal {
    /// The proposed owner.
    pub owner: String,
    /// The time, in seconds, after which the proposal can no longer be claimed.
    pub ttl: u64,
}

/// The longest time, in seconds, that a proposal may stay open: two weeks.
pub const MAX_PROPOSAL_TTL: u64 = 1209600;

/// The message of the error that a proposal gives, if any.
pub open spec fn propose_error(sender: Seq<char>, owner: Seq<char>, new_owner: Result<String, StdError>, expires_in: u64) -> Option<Seq<char>> {
    if sender != owner {
        Some(generic_text("Unauthorized"@))
    } else if new_owner is Err {
        Some(new_owner->Err_0.text@)
    } else if new_owner->Ok_0@ == owner {
        Some(generic_text("New owner cannot be same"@))
    } else if MAX_PROPOSAL_TTL < expires_in {
        Some(generic_text("Parameter expires_in cannot be higher than "@ + dec(MAX_PROPOSAL_TTL as nat)))
    } else {
        None
    }
}

/// Proposes `new_owner` (as the chain's address check answered for it) as the
/// next owner, open until `now + expires_in`. Only `owner` may propose.
pub fn propose_new_owner<M>(
    proposal: &mut Option<OwnershipProposal>,
    sender: &String,
    owner: &String,
    new_owner: Result<String, StdError>,
    expires_in: u64,
    now: u64,
) -> (r: Result<Response<M>, StdError>)
    requires
        expires_in <= MAX_PROPOSAL_TTL ==> now + expires_in <= u64::MAX,
    ensures
        match propose_error(sender@, owner@, new_owner, expires_in) {
            Some(msg) => r matches Err(e) && e.text@ == msg && *final(proposal) == *old(proposal),
            None => r matches Ok(resp) && *final(proposal) == Some(
                OwnershipProposal { owner: new_owner->Ok_0, ttl: (now + expires_in) as u64 },
            ) && resp.messages@.len() == 0 && resp.attrs() == seq![
                ("action"@, "propose_new_owner"@),
                ("new_owner"@, new_owner->Ok_0@),
            ],
        },
{
    if *sender != *owner {
        return Err(StdError::generic_err(String::from_str("Unauthorized")));
    }
    let new_owner = match new_owner {
        Ok(a) => a,
        Err(e) => return Err(e),
    };
    if new_owner == *owner {
        return Err(StdError::generic_err(String::from_str("New owner cannot be same")));
    }
    if MAX_PROPOSAL_TTL < expires_in {
        let mut msg = String::from_str("Parameter expires_in cannot be higher than ");
        msg.append(decimal(MAX_PROPOSAL_TTL as u128).as_str());
        return Err(StdError::generic_err(msg));
    }
    *proposal = Some(OwnershipProposal { owner: new_owner.clone(), ttl: now + expires_in });
    let mut resp = Response::new();
    resp.add_attribute("action", String::from_str("propose_new_owner"));
    resp.add_attribute("new_owner", new_owner);
    Ok(resp)
}

/// Withdraws the pending proposal. Only `owner` may do so.
pub fn drop_ownership_proposal<M>(proposal: &mut Option<OwnershipProposal>, sender: &String, owner: &String) -> (r: Result<Response<M>, StdError>)
    ensures
        sender@ != owner@ ==> (r matches Err(e) && e.text@ == generic_text("Unauthorized"@) && *final(proposal) == *old(proposal)),
        sender@ == owner@ ==> (r matches Ok(resp) && *final(proposal) == None::<OwnershipProposal>
            && resp.messages@.len() == 0 && resp.attrs() == seq![("action"@, "drop_ownership_proposal"@)]),
{
    if *sender != *owner {
        return Err(StdError::generic_err(String::from_str("Unauthorized")));
    }
    *proposal = None;
    let mut resp = Response::new();
    resp.add_attribute("action", String::from_str("drop_ownership_proposal"));
    Ok(resp)
}

/// The message of the error that a claim gives, if any.
pub open spec fn claim_error(proposal: Option<OwnershipProposal>, sender: Seq<char>, now: u64) -> Option<Seq<char>> {
    match proposal {
        None => Some(generic_text("Ownership proposal not found"@)),
        Some(p) => if sender != p.owner@ {
            Some(generic_text("Unauthorized"@))
        } else if now > p.ttl {
            Some(generic_text("Ownership proposal expired"@))
        } else {
            None
        },
    }
}

/// The proposed owner claims ownership, at time `now`. On success the proposal
/// is withdrawn and the new owner returned, for the caller to store.
pub fn claim_ownership<M>(proposal: &mut Option<OwnershipProposal>, sender: &String, now: u64) -> (r: Result<(String, Response<M>), StdError>)
    ensures
        match claim_error(*old(proposal), sender@, now) {
            Some(msg) => r matches Err(e) && e.text@ == msg && *final(proposal) == *old(proposal),
            None => r matches Ok((new_owner, resp)) && *final(proposal) == None::<OwnershipProposal>
                && new_owner == old(proposal)->Some_0.owner && resp.messages@.len() == 0
                && resp.attrs() == seq![("action"@, "claim_ownership"@), ("new_owner"@, new_owner@)],
        },
{
    let p = match proposal {
        Some(p) => OwnershipProposal { owner: p.owner.clone(), ttl: p.ttl },
        None => return Err(StdError::generic_err(String::from_str("Ownership proposal not found"))),
    };
    if *sender != p.owner {
        return Err(StdError::generic_err(String::from_str("Unauthorized")));
    }
    if now > p.ttl {
        return Err(StdError::generic_err(String::from_str("Ownership proposal expired")));
    }
    *proposal = None;
    let mut resp = Response::new();
    resp.add_attribute("action", String::from_str("claim_ownership"));
    resp.add_attribute("new_owner", p.owner.clone());
    Ok((p.owner, resp))
}

/// A proposal made by the owner can be claimed by the proposed owner at any
/// time up to its expiry, and the claim hands ownership to that owner.
pub proof fn lemma_propose_then_claim(
    sender: Seq<char>,
    owner: Seq<char>,
    new_owner: String,
    expires_in: u64,
    now: u64,
    claim_time: u64,
)
    requires
        propose_error(sender, owner, Ok(new_owner), expires_in) is None,
        now + expires_in <= u64::MAX,
        claim_time <= now + expires_in,
    ensures
        claim_error(
            Some(OwnershipProposal { owner: new_owner, ttl: (now + expires_in) as u64 }),
            new_owner@,
            claim_time,
        ) is None,
        sender == owner,
        new_owner@ != owner,
{
}

/// Nobody but the proposed owner can claim ownership.
pub proof fn lemma_only_proposed_owner_claims(proposal: Option<OwnershipProposal>, sender: Seq<char>, now: u64)
    requires
        claim_error(proposal, sender, now) is None,
    ensures
        proposal matches Some(p) && p.owner@ == sender && now <= p.ttl,
{
}

} // verus!
