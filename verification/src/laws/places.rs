//! That one address holds one account.

use crate::address::Address;
use crate::chain::{Chain, Rent};
use crate::effect::Effect;
use crate::instructions::refund::RefundAccounts;
use crate::instructions::take::TakeAccounts;
use crate::laws::steps::{lemma_refund_chains, lemma_take_chains};
use vstd::prelude::*;

verus! {

/// Whether no address holds accounts of two kinds.
pub open spec fn one_account(chain: Chain) -> bool {
    &&& forall|k: Address| #[trigger]
        chain.escrows.dom().contains(k) ==> !chain.tokens.dom().contains(k)
            && !chain.mints.dom().contains(k) && !chain.others.contains(k)
    &&& forall|k: Address| #[trigger]
        chain.tokens.dom().contains(k) ==> !chain.mints.dom().contains(k)
            && !chain.others.contains(k)
    &&& forall|k: Address| #[trigger]
        chain.mints.dom().contains(k) ==> !chain.others.contains(k)
}

/// No list of effects puts a second account at an address.
pub proof fn law_effects_keep_one_account(
    chain: Chain,
    effects: Seq<Effect>,
    rent: Rent,
    after: Chain,
)
    requires
        one_account(chain),
        chain.run(effects, rent) == Some(after),
    ensures
        one_account(after),
    decreases effects.len(),
{
    if effects.len() > 0 {
        let next = chain.apply(effects[0], rent)->0;
        law_effects_keep_one_account(next, effects.drop_first(), rent, after);
    }
}

/// A `take` that goes through leaves nothing at the address of the escrow and
/// nothing at that of the vault.
pub proof fn law_take_vacates(
    chain: Chain,
    a: TakeAccounts,
    expected_transfer: u64,
    now: i64,
    rent: Rent,
    after: Chain,
)
    requires
        one_account(chain),
        chain.shows_take(a),
        chain.after_take(a, expected_transfer, now, rent) == Some(after),
    ensures
        !after.occupied(a.escrow.key),
        !after.occupied(a.vault.key),
{
    let (c1, c2, c3, c4, c5) = lemma_take_chains(chain, a.accepted(), rent, after);
    assert(chain.escrows.dom().contains(a.escrow.key));
    assert(chain.tokens.dom().contains(a.vault.key));
}

/// A `refund` that goes through leaves nothing at the address of the escrow and
/// nothing at that of the vault.
pub proof fn law_refund_vacates(chain: Chain, a: RefundAccounts, rent: Rent, after: Chain)
    requires
        one_account(chain),
        chain.shows_refund(a),
        chain.after_refund(a, rent) == Some(after),
    ensures
        !after.occupied(a.escrow.key),
        !after.occupied(a.vault.key),
{
    let (c1, c2, c3) = lemma_refund_chains(chain, a.accepted(), rent, after);
    assert(chain.escrows.dom().contains(a.escrow.key));
    assert(chain.tokens.dom().contains(a.vault.key));
}

} // verus!
