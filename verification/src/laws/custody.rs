//! That the vault of every open offer can be got at.

use crate::accounts::is_token_program;
use crate::address::{is_associated, is_escrow_address, Address};
use crate::chain::{Chain, Rent};
use crate::instructions::make::MakeAccounts;
use crate::instructions::refund::RefundAccounts;
use crate::instructions::take::TakeAccounts;
use crate::instructions::update::UpdateAccounts;
use crate::laws::steps::{law_make, law_refund, law_take, law_update, lemma_refund_chains,
    lemma_refund_creation, lemma_run_three, lemma_take_chains, lemma_transfer};
use crate::laws::supply::{issued, lemma_two_accounts_fit};
use crate::state::EscrowState;
use crate::made_state;
use vstd::prelude::*;

verus! {

/// Whether `vault` is the vault of the escrow at `key` with terms `state`: the
/// escrow's associated account for the mint of the deposit.
pub open spec fn is_vault(chain: Chain, key: Address, state: EscrowState, vault: Address) -> bool {
    &&& chain.mint(state.mint_a) is Some
    &&& is_token_program(chain.mints[state.mint_a].token_program)
    &&& chain.token(vault) is Some
    &&& chain.tokens[vault].owner == key
    &&& chain.tokens[vault].mint == state.mint_a
    &&& chain.tokens[vault].token_program == chain.mints[state.mint_a].token_program
    &&& is_associated(key, state.mint_a, chain.tokens[vault].token_program, vault)
    &&& vault != state.maker
}

/// Whether the escrow at `key` is in order: it asks for something, lives at the
/// address that its seeds derive with its canonical bump, which is not the
/// maker's, and has its vault.
pub open spec fn in_custody(chain: Chain, key: Address) -> bool {
    let state = chain.escrows[key];
    &&& state.well_formed()
    &&& is_escrow_address(state.maker, state.seed, key, state.bump)
    &&& key != state.maker
    &&& exists|vault: Address| #[trigger] is_vault(chain, key, state, vault)
}

/// Whether every escrow is in order.
pub open spec fn custody(chain: Chain) -> bool {
    forall|key: Address| #[trigger]
        chain.escrows.dom().contains(key) ==> in_custody(chain, key)
}

/// `make` leaves every escrow in order.
pub proof fn law_custody_after_make(
    chain: Chain,
    a: MakeAccounts,
    seed: u64,
    receive: u64,
    deposit: u64,
    deadline: i64,
    now: i64,
    rent: Rent,
    after: Chain,
)
    requires
        custody(chain),
        chain.shows_make(a),
        chain.after_make(a, seed, receive, deposit, deadline, now, rent) == Some(after),
    ensures
        custody(after),
        is_vault(after, a.escrow.key, made_state(a, seed, receive, deadline), a.vault.key),
{
    law_make(chain, a, seed, receive, deposit, deadline, now, rent, after);
    let valid = a.accepted();
    let state = made_state(a, seed, receive, deadline);
    let effects = valid.effects(state, deposit);
    let (c1, c2) = lemma_run_three(chain, effects, rent, after);
    lemma_transfer(c2, valid.deposit_transfer(deposit), rent, after);
    assert(is_vault(after, a.escrow.key, state, a.vault.key));
    assert forall|key: Address| #[trigger] after.escrows.dom().contains(key) implies in_custody(
        after,
        key,
    ) by {
        if key != a.escrow.key {
            assert(chain.escrows.dom().contains(key));
            let vault = choose|vault: Address| #[trigger]
                is_vault(chain, key, chain.escrows[key], vault);
            assert(after.tokens.dom().contains(vault));
            assert(is_vault(after, key, after.escrows[key], vault));
        }
    }
}

/// `take` leaves every escrow in order.
pub proof fn law_custody_after_take(
    chain: Chain,
    a: TakeAccounts,
    expected_transfer: u64,
    now: i64,
    rent: Rent,
    after: Chain,
)
    requires
        custody(chain),
        chain.shows_take(a),
        chain.after_take(a, expected_transfer, now, rent) == Some(after),
    ensures
        custody(after),
{
    law_take(chain, a, expected_transfer, now, rent, after);
    let (c1, c2, c3, c4, c5) = lemma_take_chains(chain, a.accepted(), rent, after);
    assert forall|key: Address| #[trigger] after.escrows.dom().contains(key) implies in_custody(
        after,
        key,
    ) by {
        assert(chain.escrows.dom().contains(key));
        let vault = choose|vault: Address| #[trigger]
            is_vault(chain, key, chain.escrows[key], vault);
        assert(vault != a.vault.key);
        assert(c1.token(vault) == chain.token(vault));
        assert(c2.token(vault) == chain.token(vault));
        assert(c3.tokens.dom().contains(vault));
        assert(c4.tokens.dom().contains(vault));
        assert(after.token(vault) == c4.token(vault));
        assert(is_vault(after, key, after.escrows[key], vault));
    }
}

/// `refund` leaves every escrow in order.
pub proof fn law_custody_after_refund(chain: Chain, a: RefundAccounts, rent: Rent, after: Chain)
    requires
        custody(chain),
        chain.shows_refund(a),
        chain.after_refund(a, rent) == Some(after),
    ensures
        custody(after),
{
    law_refund(chain, a, rent, after);
    let (c1, c2, c3) = lemma_refund_chains(chain, a.accepted(), rent, after);
    assert forall|key: Address| #[trigger] after.escrows.dom().contains(key) implies in_custody(
        after,
        key,
    ) by {
        assert(chain.escrows.dom().contains(key));
        let vault = choose|vault: Address| #[trigger]
            is_vault(chain, key, chain.escrows[key], vault);
        assert(vault != a.vault.key);
        assert(c1.token(vault) == chain.token(vault));
        assert(c2.tokens.dom().contains(vault));
        assert(after.token(vault) == c2.token(vault));
        assert(is_vault(after, key, after.escrows[key], vault));
    }
}

/// `update` leaves every escrow in order.
pub proof fn law_custody_after_update(
    chain: Chain,
    a: UpdateAccounts,
    new_receive: u64,
    now: i64,
    rent: Rent,
    after: Chain,
)
    requires
        custody(chain),
        chain.shows_update(a),
        chain.after_update(a, new_receive, now, rent) == Some(after),
    ensures
        custody(after),
{
    law_update(chain, a, new_receive, now, rent, after);
    assert forall|key: Address| #[trigger] after.escrows.dom().contains(key) implies in_custody(
        after,
        key,
    ) by {
        assert(chain.escrows.dom().contains(key));
        let vault = choose|vault: Address| #[trigger]
            is_vault(chain, key, chain.escrows[key], vault);
        assert(is_vault(after, key, after.escrows[key], vault));
    }
}

/// Whether the accounts are the right ones for refunding the escrow at `key`,
/// signed by its maker. The token account is the maker's own, whatever it holds,
/// or missing at the address where that belongs.
pub open spec fn refund_by_maker(chain: Chain, a: RefundAccounts, key: Address) -> bool {
    let state = chain.escrows[key];
    &&& a.escrow.key == key
    &&& a.escrow.is_writable
    &&& a.maker.key == state.maker
    &&& a.maker.is_signer
    &&& a.maker.is_writable
    &&& a.mint_a.key == state.mint_a
    &&& a.token_program == chain.mints[state.mint_a].token_program
    &&& is_vault(chain, key, state, a.vault.key)
    &&& a.vault.is_writable
    &&& a.maker_ata_a.is_writable
    &&& is_associated(state.maker, state.mint_a, a.token_program, a.maker_ata_a.key)
    &&& match a.maker_ata_a.data {
        None => !a.maker_ata_a.is_foreign,
        Some(t) => t.mint == state.mint_a && t.owner == state.maker && t.token_program
            == a.token_program,
    }
}

/// Expiry never strands funds. The maker of an open offer can have the deposit
/// back at any time, whatever the clock says: a `refund` signed by the maker,
/// with a token account of the maker's that exists or that the maker can pay
/// for, goes through.
pub proof fn law_never_stranded(chain: Chain, a: RefundAccounts, rent: Rent)
    requires
        custody(chain),
        chain.escrow(a.escrow.key) is Some,
        chain.shows_refund(a),
        refund_by_maker(chain, a, a.escrow.key),
        a.maker_ata_a.data is None ==> chain.can_fund(a.maker.key, a.maker_ata_a.key, rent),
        issued(chain),
    ensures
        a.fault() is None,
        chain.after_refund(a, rent) is Some,
{
    let key = a.escrow.key;
    assert(chain.escrows.dom().contains(key));
    assert(in_custody(chain, key));
    assert(a.fault() is None);
    let valid = a.accepted();
    let payout = valid.payout();
    reveal_with_fuel(Chain::run, 4);
    let c1 = lemma_refund_creation(chain, valid, rent);
    if a.maker_ata_a.data is Some {
        lemma_two_accounts_fit(chain, a.maker_ata_a.key, a.vault.key);
    }
    assert(c1.can_transfer(valid.withdrawal()));
    let c2 = c1.apply(payout[0], rent)->0;
    lemma_transfer(c1, valid.withdrawal(), rent, c2);
    assert(c2.can_close(valid.vault_closing()));
    assert(payout.drop_first()[0] == payout[1]);
    let c3 = c2.apply(payout[1], rent)->0;
    assert(payout.drop_first().drop_first()[0] == payout[2]);
    assert(c3.apply(payout[2], rent) is Some);
}

} // verus!
