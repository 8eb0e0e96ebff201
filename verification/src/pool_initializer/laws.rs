//! Properties of the pool initializer that span its operations.
use vstd::prelude::*;
use crate::asset::Coin;
use crate::pool_initializer::contract::{execute_outcome, split_funds, total};
use crate::pool_initializer::types::{ContractError, ExecuteMsg, PoolInitializer, PoolMsg};
use crate::response::Response;

verus! {

/// Splitting the coins sent keeps every amount: for each denomination, the
/// factory's part and the liquidity's part add up to what was sent, and the
/// factory receives nothing but the fee denomination.
pub proof fn lemma_split_conserves(funds: Seq<Coin>, fee_denom: Seq<char>, fee: u128, denom: Seq<char>)
    ensures
        total(split_funds(funds, fee_denom, fee).0, denom) + total(split_funds(funds, fee_denom, fee).1, denom)
            == total(funds, denom),
        denom != fee_denom ==> total(split_funds(funds, fee_denom, fee).0, denom) == 0,
    decreases funds.len(),
{
    if funds.len() > 0 {
        lemma_split_conserves(funds.drop_last(), fee_denom, fee, denom);
        let (f, l) = split_funds(funds.drop_last(), fee_denom, fee);
        let c = funds.last();
        if c.denom@ == fee_denom {
            if c.amount >= fee {
                let f2 = f.push(Coin { denom: c.denom, amount: fee });
                assert(f2.drop_last() =~= f);
                if c.amount - fee != 0 {
                    let l2 = l.push(Coin { denom: c.denom, amount: (c.amount - fee) as u128 });
                    assert(l2.drop_last() =~= l);
                }
            } else {
                assert(f.push(c).drop_last() =~= f);
            }
        } else {
            assert(l.push(c).drop_last() =~= l);
        }
    }
}

/// Only the owner changes the settings: a call by any other address, and any
/// call other than an update of the settings, leaves them as they were.
pub proof fn lemma_only_owner_changes_settings(
    old: PoolInitializer,
    new: PoolInitializer,
    sender: String,
    funds: Seq<Coin>,
    msg: ExecuteMsg,
    r: Result<Response<PoolMsg>, ContractError>,
)
    requires
        execute_outcome(old, new, sender, funds, msg, r),
    ensures
        sender@ != old.config.owner@ || !(msg is UpdateConfig) ==> new.config == old.config,
{
}

} // verus!
