//! That one offer does not get in the way of another.

use crate::address::Address;
use crate::chain::{Chain, Rent};
use crate::instructions::make::MakeAccounts;
use crate::instructions::refund::RefundAccounts;
use crate::instructions::take::TakeAccounts;
use crate::instructions::update::UpdateAccounts;
use crate::laws::custody::is_vault;
use crate::laws::steps::{law_make, law_refund, law_take, law_update};
use vstd::prelude::*;

verus! {

/// Whether `vault` is the vault of an open offer at `key`.
pub open spec fn is_offer(chain: Chain, key: Address, vault: Address) -> bool {
    chain.escrow(key) is Some && is_vault(chain, key, chain.escrows[key], vault)
}

/// Making an offer leaves the terms and the vault of every open offer as they
/// were, the same maker's too.
///
/// The maker is not the other escrow: nobody can sign for that one.
pub proof fn law_make_leaves_other_offers(
    chain: Chain,
    a: MakeAccounts,
    seed: u64,
    receive: u64,
    deposit: u64,
    deadline: i64,
    now: i64,
    rent: Rent,
    after: Chain,
    key: Address,
    vault: Address,
)
    requires
        chain.shows_make(a),
        chain.after_make(a, seed, receive, deposit, deadline, now, rent) == Some(after),
        is_offer(chain, key, vault),
        a.maker.key != key,
    ensures
        key != a.escrow.key,
        after.escrow(key) == chain.escrow(key),
        after.token(vault) == chain.token(vault),
        is_offer(after, key, vault),
{
    law_make(chain, a, seed, receive, deposit, deadline, now, rent, after);
    assert(after.token(vault) == chain.token(vault));
}

/// Taking an offer leaves the terms and the vault of every other open offer as
/// they were.
///
/// Neither party is the other escrow: nobody can sign for that one.
pub proof fn law_take_leaves_other_offers(
    chain: Chain,
    a: TakeAccounts,
    expected_transfer: u64,
    now: i64,
    rent: Rent,
    after: Chain,
    key: Address,
    vault: Address,
)
    requires
        chain.shows_take(a),
        chain.after_take(a, expected_transfer, now, rent) == Some(after),
        is_offer(chain, key, vault),
        key != a.escrow.key,
        a.taker.key != key,
        a.maker.key != key,
    ensures
        after.escrow(key) == chain.escrow(key),
        after.token(vault) == chain.token(vault),
        is_offer(after, key, vault),
{
    law_take(chain, a, expected_transfer, now, rent, after);
    assert(after.token(vault) == chain.token(vault));
}

/// Refunding an offer leaves the terms and the vault of every other open offer
/// as they were.
///
/// The maker is not the other escrow: nobody can sign for that one.
pub proof fn law_refund_leaves_other_offers(
    chain: Chain,
    a: RefundAccounts,
    rent: Rent,
    after: Chain,
    key: Address,
    vault: Address,
)
    requires
        chain.shows_refund(a),
        chain.after_refund(a, rent) == Some(after),
        is_offer(chain, key, vault),
        key != a.escrow.key,
        a.maker.key != key,
    ensures
        after.escrow(key) == chain.escrow(key),
        after.token(vault) == chain.token(vault),
        is_offer(after, key, vault),
{
    law_refund(chain, a, rent, after);
    assert(after.token(vault) == chain.token(vault));
}

/// Repricing an offer leaves the terms of every other open offer, and every
/// vault, as they were.
pub proof fn law_update_leaves_other_offers(
    chain: Chain,
    a: UpdateAccounts,
    new_receive: u64,
    now: i64,
    rent: Rent,
    after: Chain,
    key: Address,
    vault: Address,
)
    requires
        chain.shows_update(a),
        chain.after_update(a, new_receive, now, rent) == Some(after),
        is_offer(chain, key, vault),
    ensures
        key != a.escrow.key ==> after.escrow(key) == chain.escrow(key),
        after.token(vault) == chain.token(vault),
        is_offer(after, key, vault),
{
    law_update(chain, a, new_receive, now, rent, after);
}

} // verus!
