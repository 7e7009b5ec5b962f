//! What an instruction answers, and what it asks the runtime to do.

use crate::accounts::Account;
use crate::address::is_escrow_address;
use crate::effect::{CloseTokenAccount, CreateTokenAccount, Effect, TransferChecked};
use crate::error::{Error, EscrowError};
use crate::instructions::make::{Make, MakeAccounts};
use crate::instructions::refund::{Refund, RefundAccounts};
use crate::instructions::take::{Take, TakeAccounts};
use crate::instructions::update::{Update, UpdateAccounts};
use crate::state::EscrowState;
use crate::{made_state, make_effects, make_fault, take_fault, update_effects, update_fault};
use vstd::prelude::*;

verus! {

/// The accounts of a `make` come first. Then only a price of nothing and a
/// deadline that has been reached are refused, in this order.
pub proof fn law_make_answer(a: MakeAccounts, seed: u64, receive: u64, deadline: i64, now: i64)
    ensures
        make_fault(a, seed, receive, deadline, now) == (if a.fault(seed) is Some {
            a.fault(seed)
        } else if receive == 0 {
            Some(Error::RequireGtViolated)
        } else if now >= deadline {
            Some(Error::Escrow(EscrowError::DeadlineInPast))
        } else {
            None
        }),
        Make::terms_fault(receive, deadline, now) is None <==> receive > 0 && now < deadline,
        Make::terms_fault(receive, deadline, now) == Some(Error::RequireGtViolated) <==> receive
            == 0,
        Make::terms_fault(receive, deadline, now) == Some(
            Error::Escrow(EscrowError::DeadlineInPast),
        ) <==> receive > 0 && now >= deadline,
{
}

/// The accounts of a `take` come first. Then only an offer whose deadline has
/// been reached and a price that is not the one asked are refused, in this order.
pub proof fn law_take_answer(a: TakeAccounts, expected_transfer: u64, now: i64)
    ensures
        take_fault(a, expected_transfer, now) == (if a.fault() is Some {
            a.fault()
        } else if now >= a.escrow.data->0.deadline {
            Some(Error::Escrow(EscrowError::EscrowExpired))
        } else if expected_transfer != a.escrow.data->0.receive {
            Some(Error::Escrow(EscrowError::TermsChanged))
        } else {
            None
        }),
{
}

/// The same of a `take` whose accounts have been looked at.
pub proof fn law_transfer_answer(t: Take, expected_transfer: u64, now: i64)
    ensures
        t.transfer_fault(expected_transfer, now) is None <==> now < t.escrow.data.deadline
            && expected_transfer == t.escrow.data.receive,
        t.transfer_fault(expected_transfer, now) == Some(
            Error::Escrow(EscrowError::EscrowExpired),
        ) <==> now >= t.escrow.data.deadline,
        t.transfer_fault(expected_transfer, now) == Some(
            Error::Escrow(EscrowError::TermsChanged),
        ) <==> now < t.escrow.data.deadline && expected_transfer != t.escrow.data.receive,
{
}

/// The accounts of an `update` come first. Then only a price of nothing and an
/// offer whose deadline has been reached are refused, in this order.
pub proof fn law_update_answer(a: UpdateAccounts, new_receive: u64, now: i64)
    ensures
        update_fault(a, new_receive, now) == (if a.fault() is Some {
            a.fault()
        } else if new_receive == 0 {
            Some(Error::RequireGtViolated)
        } else if now >= a.escrow.data->0.deadline {
            Some(Error::Escrow(EscrowError::EscrowExpired))
        } else {
            None
        }),
{
}

/// The same of an `update` whose accounts have been looked at. The terms that it
/// writes differ from those before in the two halves of the price alone.
pub proof fn law_reprice_answer(u: Update, new_receive: u64, now: i64)
    ensures
        u.update_fault(new_receive, now) is None <==> new_receive > 0 && now
            < u.escrow.data.deadline,
        u.update_fault(new_receive, now) == Some(Error::RequireGtViolated) <==> new_receive == 0,
        u.update_fault(new_receive, now) == Some(Error::Escrow(EscrowError::EscrowExpired))
            <==> new_receive > 0 && now >= u.escrow.data.deadline,
        u.updated(new_receive) == (EscrowState {
            seed: u.escrow.data.seed,
            maker: u.escrow.data.maker,
            mint_a: u.escrow.data.mint_a,
            mint_b: u.mint_b.key,
            receive: new_receive,
            deadline: u.escrow.data.deadline,
            bump: u.escrow.data.bump,
        }),
{
}

/// The terms of an offer are what the maker said: the seed, the price, its mint,
/// the deadline, the mint of the deposit and the maker, with the canonical bump
/// of the offer's address.
pub proof fn law_made_terms(a: MakeAccounts, seed: u64, receive: u64, deadline: i64)
    ensures
        made_state(a, seed, receive, deadline).seed == seed,
        made_state(a, seed, receive, deadline).maker == a.maker.key,
        made_state(a, seed, receive, deadline).mint_a == a.mint_a.key,
        made_state(a, seed, receive, deadline).mint_b == a.mint_b.key,
        made_state(a, seed, receive, deadline).receive == receive,
        made_state(a, seed, receive, deadline).deadline == deadline,
        a.fault(seed) is None ==> is_escrow_address(
            a.maker.key,
            seed,
            a.escrow.key,
            made_state(a, seed, receive, deadline).bump,
        ),
{
}

/// A `make` asks for three things: that the escrow be created with its terms and
/// the vault for it, both at the maker's expense, and that the whole deposit be
/// moved from the maker's account into the vault.
pub proof fn law_make_asks(a: MakeAccounts, seed: u64, receive: u64, deposit: u64, deadline: i64)
    requires
        a.mint_a.data is Some,
    ensures
        make_effects(a, seed, receive, deposit, deadline).len() == 3,
        make_effects(a, seed, receive, deposit, deadline)[0] == (Effect::CreateEscrow {
            address: a.escrow.key,
            state: made_state(a, seed, receive, deadline),
            payer: a.maker.key,
        }),
        make_effects(a, seed, receive, deposit, deadline)[1] == Effect::CreateTokenAccount(
            CreateTokenAccount {
                address: a.vault.key,
                mint: a.mint_a.key,
                owner: a.escrow.key,
                token_program: a.token_program,
                payer: a.maker.key,
            },
        ),
        make_effects(a, seed, receive, deposit, deadline)[2] == Effect::TransferChecked(
            TransferChecked {
                from: a.maker_ata_a.key,
                mint: a.mint_a.key,
                to: a.vault.key,
                authority: a.maker.key,
                amount: deposit,
                decimals: a.mint_a.data->0.decimals,
                token_program: a.token_program,
            },
        ),
{
}

/// The parts of a `make` by themselves.
pub proof fn law_make_parts(m: Make, seed: u64, receive: u64, deadline: i64, bump: u8, amount: u64)
    ensures
        m.terms(seed, receive, deadline, bump) == (EscrowState {
            seed,
            maker: m.maker,
            mint_a: m.mint_a.key,
            mint_b: m.mint_b.key,
            receive,
            deadline,
            bump,
        }),
        m.deposit_transfer(amount) == (TransferChecked {
            from: m.maker_ata_a.key,
            mint: m.mint_a.key,
            to: m.vault,
            authority: m.maker,
            amount,
            decimals: m.mint_a.data.decimals,
            token_program: m.token_program,
        }),
        m.vault_creation() == (CreateTokenAccount {
            address: m.vault,
            mint: m.mint_a.key,
            owner: m.escrow,
            token_program: m.token_program,
            payer: m.maker,
        }),
{
}

/// A `take` asks that the token accounts that receive be created at the taker's
/// expense where they are missing and only there; that the price go from the
/// taker to the maker and all that is in the vault to the taker, each in its mint
/// with the decimals of that mint; and that the vault and the escrow be closed,
/// their rent to the maker.
pub proof fn law_take_asks(a: TakeAccounts)
    requires
        a.mint_a.data is Some,
        a.mint_b.data is Some,
        a.taker_ata_b.data is Some,
        a.escrow.data is Some,
        a.vault.data is Some,
    ensures
        a.accepted().effects() == (if a.taker_ata_a.data is None {
            seq![
                Effect::CreateTokenAccount(
                    CreateTokenAccount {
                        address: a.taker_ata_a.key,
                        mint: a.mint_a.key,
                        owner: a.taker.key,
                        token_program: a.token_program,
                        payer: a.taker.key,
                    },
                ),
            ]
        } else {
            Seq::empty()
        }) + (if a.maker_ata_b.data is None {
            seq![
                Effect::CreateTokenAccount(
                    CreateTokenAccount {
                        address: a.maker_ata_b.key,
                        mint: a.mint_b.key,
                        owner: a.maker.key,
                        token_program: a.token_program,
                        payer: a.taker.key,
                    },
                ),
            ]
        } else {
            Seq::empty()
        }) + seq![
            Effect::TransferChecked(
                TransferChecked {
                    from: a.taker_ata_b.key,
                    mint: a.mint_b.key,
                    to: a.maker_ata_b.key,
                    authority: a.taker.key,
                    amount: a.escrow.data->0.receive,
                    decimals: a.mint_b.data->0.decimals,
                    token_program: a.token_program,
                },
            ),
            Effect::TransferChecked(
                TransferChecked {
                    from: a.vault.key,
                    mint: a.mint_a.key,
                    to: a.taker_ata_a.key,
                    authority: a.escrow.key,
                    amount: a.vault.data->0.amount,
                    decimals: a.mint_a.data->0.decimals,
                    token_program: a.token_program,
                },
            ),
            Effect::CloseTokenAccount(
                CloseTokenAccount {
                    address: a.vault.key,
                    authority: a.escrow.key,
                    token_program: a.token_program,
                    destination: a.maker.key,
                },
            ),
            Effect::CloseEscrow { address: a.escrow.key, destination: a.maker.key },
        ],
{
}

/// The parts of a `take` by themselves.
pub proof fn law_take_parts(t: Take)
    ensures
        t.payment() == (TransferChecked {
            from: t.taker_ata_b.key,
            mint: t.mint_b.key,
            to: t.maker_ata_b.key,
            authority: t.taker,
            amount: t.escrow.data.receive,
            decimals: t.mint_b.data.decimals,
            token_program: t.token_program,
        }),
        t.withdrawal() == (TransferChecked {
            from: t.vault.key,
            mint: t.mint_a.key,
            to: t.taker_ata_a.key,
            authority: t.escrow.key,
            amount: t.vault.data.amount,
            decimals: t.mint_a.data.decimals,
            token_program: t.token_program,
        }),
        t.vault_closing() == (CloseTokenAccount {
            address: t.vault.key,
            authority: t.escrow.key,
            token_program: t.token_program,
            destination: t.maker,
        }),
{
}

/// A `refund` asks that the maker's token account be created at the maker's
/// expense if it is missing, that all that is in the vault go there, with the
/// decimals of the mint, and that the vault and the escrow be closed, their rent
/// to the maker.
pub proof fn law_refund_asks(a: RefundAccounts)
    requires
        a.mint_a.data is Some,
        a.escrow.data is Some,
        a.vault.data is Some,
    ensures
        a.accepted().effects() == (if a.maker_ata_a.data is None {
            seq![
                Effect::CreateTokenAccount(
                    CreateTokenAccount {
                        address: a.maker_ata_a.key,
                        mint: a.mint_a.key,
                        owner: a.maker.key,
                        token_program: a.token_program,
                        payer: a.maker.key,
                    },
                ),
            ]
        } else {
            Seq::empty()
        }) + seq![
            Effect::TransferChecked(
                TransferChecked {
                    from: a.vault.key,
                    mint: a.mint_a.key,
                    to: a.maker_ata_a.key,
                    authority: a.escrow.key,
                    amount: a.vault.data->0.amount,
                    decimals: a.mint_a.data->0.decimals,
                    token_program: a.token_program,
                },
            ),
            Effect::CloseTokenAccount(
                CloseTokenAccount {
                    address: a.vault.key,
                    authority: a.escrow.key,
                    token_program: a.token_program,
                    destination: a.maker.key,
                },
            ),
            Effect::CloseEscrow { address: a.escrow.key, destination: a.maker.key },
        ],
{
}

/// The parts of a `refund` by themselves.
pub proof fn law_refund_parts(f: Refund)
    ensures
        f.withdrawal() == (TransferChecked {
            from: f.vault.key,
            mint: f.mint_a.key,
            to: f.maker_ata_a.key,
            authority: f.escrow.key,
            amount: f.vault.data.amount,
            decimals: f.mint_a.data.decimals,
            token_program: f.token_program,
        }),
        f.vault_closing() == (CloseTokenAccount {
            address: f.vault.key,
            authority: f.escrow.key,
            token_program: f.token_program,
            destination: f.maker,
        }),
{
}

/// An `update` asks for one thing: that the terms be stored again at the same
/// address, with the new amount and the new mint for a price and otherwise as
/// they were.
pub proof fn law_update_asks(a: UpdateAccounts, new_receive: u64)
    requires
        a.escrow.data is Some,
    ensures
        update_effects(a, new_receive).len() == 1,
        update_effects(a, new_receive)[0] == (Effect::StoreEscrow {
            address: a.escrow.key,
            state: EscrowState {
                seed: a.escrow.data->0.seed,
                maker: a.escrow.data->0.maker,
                mint_a: a.escrow.data->0.mint_a,
                mint_b: a.mint_b.key,
                receive: new_receive,
                deadline: a.escrow.data->0.deadline,
                bump: a.escrow.data->0.bump,
            },
        }),
{
}

/// Accounts that are accepted are those that were given.
pub proof fn law_accepted_are_given(
    m: MakeAccounts,
    t: TakeAccounts,
    f: RefundAccounts,
    u: UpdateAccounts,
)
    ensures
        m.accepted() == (Make {
            maker: m.maker.key,
            mint_a: Account { key: m.mint_a.key, data: m.mint_a.data->0 },
            mint_b: Account { key: m.mint_b.key, data: m.mint_b.data->0 },
            maker_ata_a: Account { key: m.maker_ata_a.key, data: m.maker_ata_a.data->0 },
            escrow: m.escrow.key,
            vault: m.vault.key,
            token_program: m.token_program,
        }),
        t.accepted() == (Take {
            taker: t.taker.key,
            maker: t.maker.key,
            mint_a: Account { key: t.mint_a.key, data: t.mint_a.data->0 },
            mint_b: Account { key: t.mint_b.key, data: t.mint_b.data->0 },
            taker_ata_a: t.taker_ata_a,
            taker_ata_b: Account { key: t.taker_ata_b.key, data: t.taker_ata_b.data->0 },
            maker_ata_b: t.maker_ata_b,
            escrow: Account { key: t.escrow.key, data: t.escrow.data->0 },
            vault: Account { key: t.vault.key, data: t.vault.data->0 },
            token_program: t.token_program,
        }),
        f.accepted() == (Refund {
            maker: f.maker.key,
            maker_ata_a: f.maker_ata_a,
            mint_a: Account { key: f.mint_a.key, data: f.mint_a.data->0 },
            escrow: Account { key: f.escrow.key, data: f.escrow.data->0 },
            vault: Account { key: f.vault.key, data: f.vault.data->0 },
            token_program: f.token_program,
        }),
        u.accepted() == (Update {
            maker: u.maker.key,
            mint_b: Account { key: u.mint_b.key, data: u.mint_b.data->0 },
            escrow: Account { key: u.escrow.key, data: u.escrow.data->0 },
            token_program: u.token_program,
        }),
{
}

} // verus!
