//! That a swap goes through, and what it comes to from beginning to end.

use crate::accounts::is_token_program;
use crate::address::{derives_escrow, is_associated, is_escrow, lemma_associated_unique, Address};
use crate::chain::{Chain, Rent};
use crate::effect::creation_effects;
use crate::instructions::make::MakeAccounts;
use crate::instructions::refund::RefundAccounts;
use crate::instructions::take::TakeAccounts;
use crate::instructions::update::UpdateAccounts;
use crate::laws::custody::{custody, in_custody, is_vault};
use crate::laws::history::{after_all, are_shown, law_repricings, Step};
use crate::laws::rent::take_cost;
use crate::laws::steps::{law_make, law_refund, law_take, law_update, lemma_run_add,
    lemma_take_creations, lemma_transfer, take_gain};
use crate::laws::supply::{issued, law_effects_keep_supply, lemma_apply_keeps_supply,
    lemma_two_accounts_fit};
use crate::{made_state, make_fault, take_fault, update_fault};
use vstd::prelude::*;

verus! {

/// An offer can be opened: a `make` whose accounts and terms are in order, by a
/// maker who holds the deposit and can pay for the two accounts, goes through.
pub proof fn law_make_goes_through(
    chain: Chain,
    a: MakeAccounts,
    seed: u64,
    receive: u64,
    deposit: u64,
    deadline: i64,
    now: i64,
    rent: Rent,
)
    requires
        chain.shows_make(a),
        a.maker.is_signer,
        a.maker.is_writable,
        is_token_program(a.token_program),
        a.mint_a.data is Some,
        a.mint_a.data->0.token_program == a.token_program,
        a.mint_b.data is Some,
        a.mint_b.data->0.token_program == a.token_program,
        a.maker_ata_a.data is Some,
        a.maker_ata_a.data->0.mint == a.mint_a.key,
        a.maker_ata_a.data->0.owner == a.maker.key,
        a.maker_ata_a.data->0.token_program == a.token_program,
        is_associated(a.maker.key, a.mint_a.key, a.token_program, a.maker_ata_a.key),
        a.maker_ata_a.is_writable,
        is_escrow(a.maker.key, seed, a.escrow.key),
        !chain.occupied(a.escrow.key),
        a.escrow.is_writable,
        is_associated(a.escrow.key, a.mint_a.key, a.token_program, a.vault.key),
        !chain.occupied(a.vault.key),
        a.vault.is_writable,
        receive > 0,
        deadline > now,
        chain.amount(a.maker_ata_a.key) >= deposit,
        a.maker.key != a.escrow.key,
        a.maker.key != a.vault.key,
        a.escrow.key != a.vault.key,
        chain.lamports_at(a.maker.key) >= chain.due(a.escrow.key, rent) + chain.due(
            a.vault.key,
            rent,
        ),
    ensures
        make_fault(a, seed, receive, deadline, now) is None,
        chain.after_make(a, seed, receive, deposit, deadline, now, rent) is Some,
{
    let valid = a.accepted();
    let effects = valid.effects(made_state(a, seed, receive, deadline), deposit);
    let c1 = chain.apply(effects[0], rent)->0;
    assert(c1.due(a.vault.key, rent) == chain.due(a.vault.key, rent));
    let c2 = c1.apply(effects[1], rent)->0;
    assert(c1.apply(effects[1], rent) == Some(c2));
    assert(c2.can_transfer(valid.deposit_transfer(deposit)));
    let after = c2.apply(effects[2], rent)->0;
    let s1 = effects.drop_first();
    let s2 = s1.drop_first();
    assert(s1[0] == effects[1]);
    assert(s2[0] == effects[2]);
    assert(after.run(s2.drop_first(), rent) == Some(after));
    assert(c2.run(s2, rent) == Some(after));
    assert(c1.run(s1, rent) == Some(after));
}

/// Whether the accounts are the right ones for taking the offer at `key`,
/// signed by the taker. The accounts that receive are the parties' own, or
/// missing at the addresses where those belong.
pub open spec fn take_by_taker(chain: Chain, a: TakeAccounts, key: Address) -> bool {
    let state = chain.escrows[key];
    &&& a.escrow.key == key
    &&& a.escrow.is_writable
    &&& a.taker.is_signer
    &&& a.taker.is_writable
    &&& a.maker.key == state.maker
    &&& a.maker.is_writable
    &&& a.mint_a.key == state.mint_a
    &&& a.mint_b.key == state.mint_b
    &&& a.mint_b.data is Some
    &&& a.token_program == chain.mints[state.mint_a].token_program
    &&& a.token_program == a.mint_b.data->0.token_program
    &&& is_vault(chain, key, state, a.vault.key)
    &&& a.vault.is_writable
    &&& a.taker_ata_a.is_writable
    &&& is_associated(a.taker.key, state.mint_a, a.token_program, a.taker_ata_a.key)
    &&& match a.taker_ata_a.data {
        None => !a.taker_ata_a.is_foreign,
        Some(t) => t.mint == state.mint_a && t.owner == a.taker.key && t.token_program
            == a.token_program,
    }
    &&& a.maker_ata_b.is_writable
    &&& is_associated(state.maker, state.mint_b, a.token_program, a.maker_ata_b.key)
    &&& match a.maker_ata_b.data {
        None => !a.maker_ata_b.is_foreign,
        Some(t) => t.mint == state.mint_b && t.owner == state.maker && t.token_program
            == a.token_program,
    }
    &&& a.taker_ata_b.is_writable
    &&& is_associated(a.taker.key, state.mint_b, a.token_program, a.taker_ata_b.key)
    &&& match a.taker_ata_b.data {
        None => false,
        Some(t) => t.mint == state.mint_b && t.owner == a.taker.key && t.token_program
            == a.token_program,
    }
}

/// A taker who holds the lamports for the token accounts that are missing can
/// have them created.
proof fn lemma_take_creations_go_through(chain: Chain, a: TakeAccounts, rent: Rent)
    requires
        chain.shows_take(a),
        a.taker_ata_a.data is None ==> !a.taker_ata_a.is_foreign,
        a.maker_ata_b.data is None ==> !a.maker_ata_b.is_foreign,
        chain.lamports_at(a.taker.key) >= take_cost(chain, a, rent),
        a.taker_ata_a.data is None ==> a.taker.key != a.taker_ata_a.key,
        a.maker_ata_b.data is None ==> a.taker.key != a.maker_ata_b.key,
        a.taker_ata_a.data is None && a.maker_ata_b.data is None ==> a.taker_ata_a.key
            != a.maker_ata_b.key,
    ensures
        chain.run(
            creation_effects(a.accepted().creation_a()) + creation_effects(
                a.accepted().creation_b(),
            ),
            rent,
        ) is Some,
{
    let s = creation_effects(a.accepted().creation_a());
    let t = creation_effects(a.accepted().creation_b());
    reveal_with_fuel(Chain::run, 2);
    lemma_run_add(chain, s, t, rent);
    assert(chain.run(s, rent) is Some);
    let c1 = chain.run(s, rent)->0;
    if a.maker_ata_b.data is None {
        assert(!c1.occupied(a.maker_ata_b.key));
        assert(c1.due(a.maker_ata_b.key, rent) == chain.due(a.maker_ata_b.key, rent));
    }
    assert(c1.run(t, rent) is Some);
}

/// Anyone who pays the price gets the deposit. A `take` before the deadline, at
/// the price that the offer asks, by a taker who holds that price and the
/// lamports for the accounts that are missing, goes through.
///
/// The taker is neither the escrow nor an account that is missing: nobody can
/// sign for those. Two accounts that are missing have two addresses.
pub proof fn law_take_goes_through(
    chain: Chain,
    a: TakeAccounts,
    expected_transfer: u64,
    now: i64,
    rent: Rent,
)
    requires
        custody(chain),
        issued(chain),
        chain.escrow(a.escrow.key) is Some,
        now < chain.escrows[a.escrow.key].deadline,
        chain.escrows[a.escrow.key].receive == expected_transfer,
        chain.shows_take(a),
        take_by_taker(chain, a, a.escrow.key),
        a.taker.key != a.escrow.key,
        chain.amount(a.taker_ata_b.key) >= expected_transfer,
        chain.lamports_at(a.taker.key) >= take_cost(chain, a, rent),
        a.taker_ata_a.data is None ==> a.taker.key != a.taker_ata_a.key,
        a.maker_ata_b.data is None ==> a.taker.key != a.maker_ata_b.key,
        a.taker_ata_a.data is None && a.maker_ata_b.data is None ==> a.taker_ata_a.key
            != a.maker_ata_b.key,
    ensures
        take_fault(a, expected_transfer, now) is None,
        chain.after_take(a, expected_transfer, now, rent) is Some,
{
    let key = a.escrow.key;
    assert(chain.escrows.dom().contains(key));
    assert(in_custody(chain, key));
    assert(a.fault() is None);
    let valid = a.accepted();
    let s = creation_effects(valid.creation_a());
    let t = creation_effects(valid.creation_b());
    let swap = valid.swap();
    lemma_take_creations_go_through(chain, a, rent);
    let (c1, c2) = lemma_take_creations(chain, valid, rent);
    law_effects_keep_supply(chain, s + t, rent, c2);
    assert(c2.token(a.vault.key) == chain.token(a.vault.key));
    assert(c2.token(a.taker_ata_b.key) == chain.token(a.taker_ata_b.key));
    assert(c2.token(a.maker_ata_b.key) is Some);
    assert(c2.tokens[a.maker_ata_b.key].mint == a.mint_b.key);
    if a.taker_ata_b.key != a.maker_ata_b.key {
        lemma_two_accounts_fit(c2, a.taker_ata_b.key, a.maker_ata_b.key);
    }
    assert(c2.can_transfer(valid.payment()));
    let c3 = c2.apply(swap[0], rent)->0;
    lemma_transfer(c2, valid.payment(), rent, c3);
    lemma_apply_keeps_supply(c2, swap[0], rent, c3);
    assert(issued(c3));
    assert(a.taker_ata_b.key != a.vault.key);
    assert(a.maker_ata_b.key != a.vault.key);
    assert(a.taker_ata_a.key != a.vault.key);
    assert(c3.token(a.vault.key) == c2.token(a.vault.key));
    assert(c3.tokens.dom().contains(a.taker_ata_a.key));
    lemma_two_accounts_fit(c3, a.taker_ata_a.key, a.vault.key);
    assert(c3.can_transfer(valid.withdrawal()));
    let c4 = c3.apply(swap[1], rent)->0;
    lemma_transfer(c3, valid.withdrawal(), rent, c4);
    assert(c4.amount(a.vault.key) == 0);
    assert(c4.tokens.dom().contains(a.vault.key));
    assert(c4.can_close(valid.vault_closing()));
    let c5 = c4.apply(swap[2], rent)->0;
    let s1 = swap.drop_first();
    let s2 = s1.drop_first();
    let s3 = s2.drop_first();
    assert(s1[0] == swap[1]);
    assert(s2[0] == swap[2]);
    assert(s3[0] == swap[3]);
    let after = c5.apply(swap[3], rent)->0;
    assert(after.run(s3.drop_first(), rent) == Some(after));
    assert(c5.run(s3, rent) == Some(after));
    assert(c4.run(s2, rent) == Some(after));
    assert(c3.run(s1, rent) == Some(after));
}

/// The maker can reprice a live offer in any mint of either token program: an
/// `update` that the maker signs, before the deadline and to a price above zero,
/// goes through.
pub proof fn law_update_goes_through(
    chain: Chain,
    a: UpdateAccounts,
    new_receive: u64,
    now: i64,
    rent: Rent,
)
    requires
        chain.shows_update(a),
        a.maker.is_signer,
        is_token_program(a.token_program),
        a.mint_b.data is Some,
        a.mint_b.data->0.token_program == a.token_program,
        chain.escrow(a.escrow.key) is Some,
        chain.escrows[a.escrow.key].maker == a.maker.key,
        derives_escrow(
            a.maker.key,
            chain.escrows[a.escrow.key].seed,
            chain.escrows[a.escrow.key].bump,
            a.escrow.key,
        ),
        a.escrow.is_writable,
        new_receive > 0,
        now < chain.escrows[a.escrow.key].deadline,
    ensures
        update_fault(a, new_receive, now) is None,
        chain.after_update(a, new_receive, now, rent) is Some,
{
    reveal_with_fuel(Chain::run, 2);
}

/// From beginning to end: once an offer has been made, repriced any number of
/// times or never, and taken, the deposit has gone from the maker to the taker
/// and the price from the taker to the maker, the vault and the escrow are gone,
/// and nothing else has changed hands. The price is the one last set.
pub proof fn law_make_then_take(
    chain: Chain,
    a: MakeAccounts,
    seed: u64,
    receive: u64,
    deposit: u64,
    deadline: i64,
    now: i64,
    rent: Rent,
    made: Chain,
    repricings: Seq<Step>,
    b: TakeAccounts,
    expected_transfer: u64,
    later: i64,
    after: Chain,
)
    requires
        chain.shows_make(a),
        chain.after_make(a, seed, receive, deposit, deadline, now, rent) == Some(made),
        are_shown(made, repricings, rent),
        forall|i: int|
            0 <= i < repricings.len() ==> (#[trigger] repricings[i]).reprices(a.escrow.key),
        after_all(made, repricings, rent).shows_take(b),
        b.escrow.key == a.escrow.key,
        after_all(made, repricings, rent).after_take(b, expected_transfer, later, rent) == Some(
            after,
        ),
    ensures
        ({
            let state = after_all(made, repricings, rent).escrows[a.escrow.key];
            expected_transfer == state.receive && b.mint_b.key == state.mint_b
        }),
        repricings.len() == 0 ==> expected_transfer == receive && b.mint_b.key == a.mint_b.key,
        later < deadline,
        b.maker.key == a.maker.key,
        b.mint_a.key == a.mint_a.key,
        b.vault.key == a.vault.key,
        after.escrows == chain.escrows,
        after.token(a.vault.key) is None,
        forall|k: Address|
            k != a.vault.key ==> #[trigger] after.amount(k) == chain.amount(k) - (if k
                == a.maker_ata_a.key {
                deposit as int
            } else {
                0
            }) + (if k == b.taker_ata_a.key {
                deposit as int
            } else {
                0
            }) + (if k == b.maker_ata_b.key {
                expected_transfer as int
            } else {
                0
            }) - (if k == b.taker_ata_b.key {
                expected_transfer as int
            } else {
                0
            }),
{
    let repriced = after_all(made, repricings, rent);
    law_make(chain, a, seed, receive, deposit, deadline, now, rent, made);
    law_repricings(made, repricings, rent, a.escrow.key);
    law_take(repriced, b, expected_transfer, later, rent, after);
    lemma_associated_unique(
        a.escrow.key,
        a.mint_a.key,
        a.token_program,
        a.vault.key,
        b.vault.key,
    );
    assert(chain.escrow(a.escrow.key) is None);
    assert(after.escrows =~= chain.escrows);
    assert forall|k: Address| k != a.vault.key implies #[trigger] after.amount(k) == chain.amount(k)
        - (if k == a.maker_ata_a.key {
        deposit as int
    } else {
        0
    }) + take_gain(repriced, b, k) by {
        assert(repriced.token(k) == made.token(k));
        if k != a.maker_ata_a.key {
            assert(made.token(k) == chain.token(k));
        }
    }
}

/// Chains with the same token account at every address have the same token
/// accounts.
proof fn lemma_same_tokens(a: Chain, b: Chain)
    requires
        forall|k: Address| #[trigger] a.token(k) == b.token(k),
    ensures
        a.tokens == b.tokens,
{
    assert forall|k: Address| #[trigger] a.tokens.dom().contains(k) == b.tokens.dom().contains(
        k,
    ) by {
        assert(a.token(k) == b.token(k));
    }
    assert forall|k: Address| a.tokens.dom().contains(k) implies #[trigger] a.tokens[k]
        == b.tokens[k] by {
        assert(a.token(k) == b.token(k));
    }
    assert(a.tokens =~= b.tokens);
}

/// What a refund undoes: once an offer has been made, repriced any number of
/// times or never, and refunded, every token account and every escrow is as it
/// was.
pub proof fn law_make_then_refund(
    chain: Chain,
    a: MakeAccounts,
    seed: u64,
    receive: u64,
    deposit: u64,
    deadline: i64,
    now: i64,
    rent: Rent,
    made: Chain,
    repricings: Seq<Step>,
    b: RefundAccounts,
    after: Chain,
)
    requires
        chain.shows_make(a),
        chain.after_make(a, seed, receive, deposit, deadline, now, rent) == Some(made),
        are_shown(made, repricings, rent),
        forall|i: int|
            0 <= i < repricings.len() ==> (#[trigger] repricings[i]).reprices(a.escrow.key),
        after_all(made, repricings, rent).shows_refund(b),
        b.escrow.key == a.escrow.key,
        after_all(made, repricings, rent).after_refund(b, rent) == Some(after),
    ensures
        after.escrows == chain.escrows,
        after.tokens == chain.tokens,
        after.mints == chain.mints,
{
    let repriced = after_all(made, repricings, rent);
    law_make(chain, a, seed, receive, deposit, deadline, now, rent, made);
    law_repricings(made, repricings, rent, a.escrow.key);
    law_refund(repriced, b, rent, after);
    lemma_associated_unique(
        a.escrow.key,
        a.mint_a.key,
        a.token_program,
        a.vault.key,
        b.vault.key,
    );
    lemma_associated_unique(
        a.maker.key,
        a.mint_a.key,
        a.token_program,
        a.maker_ata_a.key,
        b.maker_ata_a.key,
    );
    assert(chain.escrow(a.escrow.key) is None);
    assert(after.escrows =~= chain.escrows);
    assert(chain.token(a.vault.key) is None);
    assert forall|k: Address| #[trigger] after.token(k) == chain.token(k) by {
        if k != a.vault.key && k != a.maker_ata_a.key {
            assert(made.token(k) == chain.token(k));
            assert(repriced.token(k) == made.token(k));
        }
    }
    lemma_same_tokens(after, chain);
}

/// The next taker pays the new price: once an offer has been repriced, whoever
/// takes it pays the new amount of the new mint, and gets what was in the vault
/// before.
pub proof fn law_update_then_take(
    chain: Chain,
    a: UpdateAccounts,
    new_receive: u64,
    now: i64,
    rent: Rent,
    repriced: Chain,
    b: TakeAccounts,
    expected_transfer: u64,
    later: i64,
    after: Chain,
)
    requires
        chain.shows_update(a),
        chain.after_update(a, new_receive, now, rent) == Some(repriced),
        repriced.shows_take(b),
        b.escrow.key == a.escrow.key,
        repriced.after_take(b, expected_transfer, later, rent) == Some(after),
    ensures
        expected_transfer == new_receive,
        b.mint_b.key == a.mint_b.key,
        forall|k: Address|
            k != b.vault.key ==> #[trigger] after.amount(k) == chain.amount(k) + (if k
                == b.taker_ata_a.key {
                chain.amount(b.vault.key)
            } else {
                0
            }) + (if k == b.maker_ata_b.key {
                new_receive as int
            } else {
                0
            }) - (if k == b.taker_ata_b.key {
                new_receive as int
            } else {
                0
            }),
{
    law_update(chain, a, new_receive, now, rent, repriced);
    law_take(repriced, b, expected_transfer, later, rent, after);
    assert forall|k: Address| k != b.vault.key implies #[trigger] after.amount(k) == chain.amount(k)
        + take_gain(repriced, b, k) by {
        assert(repriced.token(k) == chain.token(k));
    }
}

} // verus!
