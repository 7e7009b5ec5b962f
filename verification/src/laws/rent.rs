//! Who pays the rent, and who gets it back.

use crate::address::{lemma_associated_unique, Address};
use crate::chain::{Chain, Rent};
use crate::instructions::make::MakeAccounts;
use crate::instructions::refund::RefundAccounts;
use crate::instructions::take::TakeAccounts;
use crate::laws::history::{after_all, are_shown, law_repricings, Step};
use crate::laws::places::{law_effects_keep_one_account, one_account};
use crate::laws::steps::{law_make, law_refund, law_take, lemma_refund_chains, lemma_run_three,
    lemma_take_chains, lemma_transfer};
use crate::{made_state, make_effects};
use vstd::prelude::*;

verus! {

/// What it costs to have an account at `key`, where `missing` says whether there
/// is none yet.
pub open spec fn cost(chain: Chain, missing: bool, key: Address, rent: Rent) -> int {
    if missing {
        chain.due(key, rent) as int
    } else {
        0
    }
}

/// What is paid into `k` where `key` is to have an account.
pub open spec fn paid_in(chain: Chain, missing: bool, key: Address, rent: Rent, k: Address) -> int {
    if k == key {
        cost(chain, missing, key, rent)
    } else {
        0
    }
}

/// What a taker pays for the token accounts that a `take` creates.
pub open spec fn take_cost(chain: Chain, a: TakeAccounts, rent: Rent) -> int {
    cost(chain, a.taker_ata_a.data is None, a.taker_ata_a.key, rent) + cost(
        chain,
        a.maker_ata_b.data is None,
        a.maker_ata_b.key,
        rent,
    )
}

/// The maker pays for the escrow and for its vault, and nobody else pays
/// anything.
pub proof fn law_make_rent(
    chain: Chain,
    a: MakeAccounts,
    seed: u64,
    receive: u64,
    deposit: u64,
    deadline: i64,
    now: i64,
    rent: Rent,
    after: Chain,
)
    requires
        chain.shows_make(a),
        chain.after_make(a, seed, receive, deposit, deadline, now, rent) == Some(after),
    ensures
        after.lamports_at(a.maker.key) == chain.lamports_at(a.maker.key) - chain.due(
            a.escrow.key,
            rent,
        ) - chain.due(a.vault.key, rent),
        after.lamports_at(a.escrow.key) == chain.lamports_at(a.escrow.key) + chain.due(
            a.escrow.key,
            rent,
        ),
        after.lamports_at(a.vault.key) == chain.lamports_at(a.vault.key) + chain.due(
            a.vault.key,
            rent,
        ),
        forall|k: Address|
            k != a.maker.key && k != a.escrow.key && k != a.vault.key
                ==> #[trigger] after.lamports_at(k) == chain.lamports_at(k),
{
    let valid = a.accepted();
    let effects = valid.effects(made_state(a, seed, receive, deadline), deposit);
    let (c1, c2) = lemma_run_three(chain, effects, rent, after);
    lemma_transfer(c2, valid.deposit_transfer(deposit), rent, after);
    assert(c1.due(a.vault.key, rent) == chain.due(a.vault.key, rent));
}

/// The rent of the escrow and of the vault goes to the maker when the offer is
/// taken. The taker pays for the token accounts that are created on the way,
/// the maker's too, and each of those holds what it needs. A maker who takes the
/// own offer gets the one and pays the other. Nobody else gets or pays anything.
///
/// Neither the escrow nor the vault is the taker: nobody can sign for those.
pub proof fn law_take_rent(
    chain: Chain,
    a: TakeAccounts,
    expected_transfer: u64,
    now: i64,
    rent: Rent,
    after: Chain,
)
    requires
        one_account(chain),
        chain.shows_take(a),
        chain.after_take(a, expected_transfer, now, rent) == Some(after),
        a.taker.key != a.escrow.key,
        a.taker.key != a.vault.key,
    ensures
        a.maker.key != a.escrow.key,
        a.maker.key != a.vault.key,
        after.lamports_at(a.escrow.key) == 0,
        after.lamports_at(a.vault.key) == 0,
        forall|k: Address|
            k != a.escrow.key && k != a.vault.key ==> #[trigger] after.lamports_at(k)
                == chain.lamports_at(k) + (if k == a.maker.key {
                chain.lamports_at(a.escrow.key) + chain.lamports_at(a.vault.key)
            } else {
                0
            }) - (if k == a.taker.key {
                take_cost(chain, a, rent)
            } else {
                0
            }) + paid_in(chain, a.taker_ata_a.data is None, a.taker_ata_a.key, rent, k) + paid_in(
                chain,
                a.maker_ata_b.data is None,
                a.maker_ata_b.key,
                rent,
                k,
            ),
{
    let (c1, c2, c3, c4, c5) = lemma_take_chains(chain, a.accepted(), rent, after);
    assert(chain.escrows.dom().contains(a.escrow.key));
    assert(chain.tokens.dom().contains(a.vault.key));
    if a.maker_ata_b.data is None {
        assert(c1.due(a.maker_ata_b.key, rent) == chain.due(a.maker_ata_b.key, rent));
    }
    assert forall|k: Address| #[trigger] c2.lamports_at(k) == chain.lamports_at(k) - (if k
        == a.taker.key {
        take_cost(chain, a, rent)
    } else {
        0
    }) + paid_in(chain, a.taker_ata_a.data is None, a.taker_ata_a.key, rent, k) + paid_in(
        chain,
        a.maker_ata_b.data is None,
        a.maker_ata_b.key,
        rent,
        k,
    ) by {
        assert(c1.lamports_at(k) == chain.lamports_at(k) - (if k == a.taker.key {
            cost(chain, a.taker_ata_a.data is None, a.taker_ata_a.key, rent)
        } else {
            0
        }) + paid_in(chain, a.taker_ata_a.data is None, a.taker_ata_a.key, rent, k));
    }
    assert(c2.lamports_at(a.escrow.key) == chain.lamports_at(a.escrow.key));
    assert(c2.lamports_at(a.vault.key) == chain.lamports_at(a.vault.key));
    assert(c5.lamports_at(a.escrow.key) == c2.lamports_at(a.escrow.key));
    assert forall|k: Address| k != a.escrow.key && k != a.vault.key implies #[trigger]
        after.lamports_at(k) == c2.lamports_at(k) + (if k == a.maker.key {
        chain.lamports_at(a.escrow.key) + chain.lamports_at(a.vault.key)
    } else {
        0
    }) by {
        assert(c4.lamports_at(k) == c2.lamports_at(k));
    }
}

/// The rent of the escrow and of the vault goes back to the maker with a
/// refund, less what a token account costs that the maker does not have yet, and
/// that one holds what it needs. Nobody else gets or pays anything.
pub proof fn law_refund_rent(chain: Chain, a: RefundAccounts, rent: Rent, after: Chain)
    requires
        one_account(chain),
        chain.shows_refund(a),
        chain.after_refund(a, rent) == Some(after),
    ensures
        a.maker.key != a.escrow.key,
        a.maker.key != a.vault.key,
        after.lamports_at(a.escrow.key) == 0,
        after.lamports_at(a.vault.key) == 0,
        forall|k: Address|
            k != a.escrow.key && k != a.vault.key ==> #[trigger] after.lamports_at(k)
                == chain.lamports_at(k) + (if k == a.maker.key {
                chain.lamports_at(a.escrow.key) + chain.lamports_at(a.vault.key) - cost(
                    chain,
                    a.maker_ata_a.data is None,
                    a.maker_ata_a.key,
                    rent,
                )
            } else {
                0
            }) + paid_in(chain, a.maker_ata_a.data is None, a.maker_ata_a.key, rent, k),
{
    let (c1, c2, c3) = lemma_refund_chains(chain, a.accepted(), rent, after);
    assert(chain.escrows.dom().contains(a.escrow.key));
    assert(chain.tokens.dom().contains(a.vault.key));
    assert(c1.lamports_at(a.escrow.key) == chain.lamports_at(a.escrow.key));
    assert(c1.lamports_at(a.vault.key) == chain.lamports_at(a.vault.key));
    assert(c3.lamports_at(a.escrow.key) == c2.lamports_at(a.escrow.key));
    assert forall|k: Address| k != a.escrow.key && k != a.vault.key implies #[trigger]
        after.lamports_at(k) == c1.lamports_at(k) + (if k == a.maker.key {
        chain.lamports_at(a.escrow.key) + chain.lamports_at(a.vault.key)
    } else {
        0
    }) by {
        assert(c2.lamports_at(k) == c1.lamports_at(k));
    }
}

/// Rent goes back to whoever paid it: once an offer has been made, repriced any
/// number of times or never, and taken, the maker has as many lamports as
/// before, and what others had left at the two addresses. So it is for a maker
/// who takes the own offer, for whom no token account is missing.
///
/// The taker signs for neither the escrow nor the vault, and no token account is
/// created at the maker's own address.
pub proof fn law_rent_comes_back_with_a_take(
    chain: Chain,
    a: MakeAccounts,
    seed: u64,
    receive: u64,
    deposit: u64,
    deadline: i64,
    now: i64,
    rent: Rent,
    made: Chain,
    repricings: Seq<Step>,
    b: TakeAccounts,
    expected_transfer: u64,
    later: i64,
    after: Chain,
)
    requires
        one_account(chain),
        chain.shows_make(a),
        chain.after_make(a, seed, receive, deposit, deadline, now, rent) == Some(made),
        are_shown(made, repricings, rent),
        forall|i: int|
            0 <= i < repricings.len() ==> (#[trigger] repricings[i]).reprices(a.escrow.key),
        after_all(made, repricings, rent).shows_take(b),
        b.escrow.key == a.escrow.key,
        after_all(made, repricings, rent).after_take(b, expected_transfer, later, rent) == Some(
            after,
        ),
        b.taker.key != b.escrow.key,
        b.taker.key != b.vault.key,
        b.maker.key != b.taker_ata_a.key,
        b.maker.key != b.maker_ata_b.key,
    ensures
        after.lamports_at(a.maker.key) == chain.lamports_at(a.maker.key) + chain.lamports_at(
            a.escrow.key,
        ) + chain.lamports_at(a.vault.key),
        after.lamports_at(a.escrow.key) == 0,
        after.lamports_at(a.vault.key) == 0,
{
    let repriced = after_all(made, repricings, rent);
    law_make(chain, a, seed, receive, deposit, deadline, now, rent, made);
    law_effects_keep_one_account(
        chain,
        make_effects(a, seed, receive, deposit, deadline),
        rent,
        made,
    );
    law_repricings(made, repricings, rent, a.escrow.key);
    law_take(repriced, b, expected_transfer, later, rent, after);
    lemma_associated_unique(
        a.escrow.key,
        a.mint_a.key,
        a.token_program,
        a.vault.key,
        b.vault.key,
    );
    if b.maker.key == b.taker.key {
        lemma_associated_unique(
            a.maker.key,
            a.mint_a.key,
            a.token_program,
            a.maker_ata_a.key,
            b.taker_ata_a.key,
        );
        lemma_associated_unique(
            b.maker.key,
            b.mint_b.key,
            b.token_program,
            b.taker_ata_b.key,
            b.maker_ata_b.key,
        );
        assert(made.token(a.maker_ata_a.key) is Some);
    }
    law_make_rent(chain, a, seed, receive, deposit, deadline, now, rent, made);
    law_take_rent(repriced, b, expected_transfer, later, rent, after);
}

/// Rent goes back to whoever paid it: once an offer has been made, repriced any
/// number of times or never, and refunded, the maker has as many lamports as
/// before, and what others had left at the two addresses.
pub proof fn law_rent_comes_back_with_a_refund(
    chain: Chain,
    a: MakeAccounts,
    seed: u64,
    receive: u64,
    deposit: u64,
    deadline: i64,
    now: i64,
    rent: Rent,
    made: Chain,
    repricings: Seq<Step>,
    b: RefundAccounts,
    after: Chain,
)
    requires
        one_account(chain),
        chain.shows_make(a),
        chain.after_make(a, seed, receive, deposit, deadline, now, rent) == Some(made),
        are_shown(made, repricings, rent),
        forall|i: int|
            0 <= i < repricings.len() ==> (#[trigger] repricings[i]).reprices(a.escrow.key),
        after_all(made, repricings, rent).shows_refund(b),
        b.escrow.key == a.escrow.key,
        after_all(made, repricings, rent).after_refund(b, rent) == Some(after),
    ensures
        after.lamports_at(a.maker.key) == chain.lamports_at(a.maker.key) + chain.lamports_at(
            a.escrow.key,
        ) + chain.lamports_at(a.vault.key),
        after.lamports_at(a.escrow.key) == 0,
        after.lamports_at(a.vault.key) == 0,
{
    let repriced = after_all(made, repricings, rent);
    law_make(chain, a, seed, receive, deposit, deadline, now, rent, made);
    law_effects_keep_one_account(
        chain,
        make_effects(a, seed, receive, deposit, deadline),
        rent,
        made,
    );
    law_repricings(made, repricings, rent, a.escrow.key);
    law_refund(repriced, b, rent, after);
    lemma_associated_unique(
        a.escrow.key,
        a.mint_a.key,
        a.token_program,
        a.vault.key,
        b.vault.key,
    );
    lemma_associated_unique(
        a.maker.key,
        a.mint_a.key,
        a.token_program,
        a.maker_ata_a.key,
        b.maker_ata_a.key,
    );
    assert(made.token(a.maker_ata_a.key) is Some);
    law_make_rent(chain, a, seed, receive, deposit, deadline, now, rent, made);
    law_refund_rent(repriced, b, rent, after);
}

} // verus!
