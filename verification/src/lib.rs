//! A two-party token escrow.
//!
//! A maker locks tokens of one mint in a vault and names a price in tokens of
//! another. Whoever pays the price gets the vault; until then the maker can
//! change the price or take the tokens back.
//!
//! Every instruction reads the accounts it is given, decides, and returns the
//! effects that the runtime is to carry out, in order and all or none.

pub mod accounts;
pub mod address;
pub mod chain;
pub mod constants;
pub mod effect;
pub mod error;
pub mod instructions;
pub mod laws;
pub mod state;

use crate::address::escrow_bump;
use crate::effect::{push_creation, Effect};
use crate::error::{Error, EscrowError};
use crate::instructions::make::{Make, MakeAccounts};
use crate::instructions::refund::{Refund, RefundAccounts};
use crate::instructions::take::{Take, TakeAccounts};
use crate::instructions::update::{Update, UpdateAccounts};
use crate::state::EscrowState;
use vstd::prelude::*;

verus! {

/// What is wrong with making an offer, if anything: with the accounts first,
/// then with the terms.
pub open spec fn make_fault(
    accounts: MakeAccounts,
    seed: u64,
    receive: u64,
    deadline: i64,
    now: i64,
) -> Option<Error> {
    if accounts.fault(seed) is Some {
        accounts.fault(seed)
    } else {
        Make::terms_fault(receive, deadline, now)
    }
}

/// The terms of the offer that is made.
pub open spec fn made_state(
    accounts: MakeAccounts,
    seed: u64,
    receive: u64,
    deadline: i64,
) -> EscrowState {
    accounts.accepted().terms(
        seed,
        receive,
        deadline,
        escrow_bump(accounts.maker.key, seed, accounts.escrow.key),
    )
}

/// All that making an offer does.
pub open spec fn make_effects(
    accounts: MakeAccounts,
    seed: u64,
    receive: u64,
    deposit: u64,
    deadline: i64,
) -> Seq<Effect> {
    accounts.accepted().effects(made_state(accounts, seed, receive, deadline), deposit)
}

/// What is wrong with taking an offer, if anything.
pub open spec fn take_fault(
    accounts: TakeAccounts,
    expected_transfer: u64,
    now: i64,
) -> Option<Error> {
    if accounts.fault() is Some {
        accounts.fault()
    } else {
        accounts.accepted().transfer_fault(expected_transfer, now)
    }
}

/// What is wrong with repricing an offer, if anything.
pub open spec fn update_fault(accounts: UpdateAccounts, new_receive: u64, now: i64) -> Option<
    Error,
> {
    if accounts.fault() is Some {
        accounts.fault()
    } else {
        accounts.accepted().update_fault(new_receive, now)
    }
}

/// All that repricing an offer does.
pub open spec fn update_effects(accounts: UpdateAccounts, new_receive: u64) -> Seq<Effect> {
    seq![
        Effect::StoreEscrow {
            address: accounts.escrow.key,
            state: accounts.accepted().updated(new_receive),
        },
    ]
}

/// Opens an offer of `deposit` tokens for `receive` tokens, which can be taken
/// before `deadline`: creates the escrow and its vault at the maker's expense
/// and moves the deposit into the vault.
pub fn make(
    accounts: &MakeAccounts,
    seed: u64,
    receive: u64,
    deposit: u64,
    deadline: i64,
    now: i64,
) -> (r: Result<Vec<Effect>, Error>)
    ensures
        match r {
            Ok(effects) => {
                &&& make_fault(*accounts, seed, receive, deadline, now) is None
                &&& effects@ == make_effects(*accounts, seed, receive, deposit, deadline)
            },
            Err(e) => make_fault(*accounts, seed, receive, deadline, now) == Some(e),
        },
{
    let (valid, bump) = match Make::try_accounts(accounts, seed) {
        Ok(valid) => valid,
        Err(e) => return Err(e),
    };
    let state = match valid.init_escrow(seed, receive, deadline, bump, now) {
        Ok(state) => state,
        Err(e) => return Err(e),
    };
    let mut effects: Vec<Effect> = Vec::new();
    effects.push(
        Effect::CreateEscrow { address: valid.escrow, state, payer: valid.maker },
    );
    effects.push(Effect::CreateTokenAccount(valid.create_vault()));
    effects.push(Effect::TransferChecked(valid.deposit(deposit)));
    Ok(effects)
}

/// Takes an offer at the price that the taker expects: pays the price to the
/// maker, sweeps the vault to the taker and closes the vault and the escrow.
pub fn take(accounts: &TakeAccounts, expected_transfer: u64, now: i64) -> (r: Result<
    Vec<Effect>,
    Error,
>)
    ensures
        match r {
            Ok(effects) => {
                &&& take_fault(*accounts, expected_transfer, now) is None
                &&& effects@ == accounts.accepted().effects()
            },
            Err(e) => take_fault(*accounts, expected_transfer, now) == Some(e),
        },
{
    let valid = match Take::try_accounts(accounts) {
        Ok(valid) => valid,
        Err(e) => return Err(e),
    };
    let payment = match valid.transfer(expected_transfer, now) {
        Ok(payment) => payment,
        Err(e) => return Err(e),
    };
    let mut effects: Vec<Effect> = Vec::new();
    push_creation(
        &mut effects,
        &valid.taker_ata_a,
        valid.taker,
        valid.mint_a.key,
        valid.token_program,
        valid.taker,
    );
    push_creation(
        &mut effects,
        &valid.maker_ata_b,
        valid.maker,
        valid.mint_b.key,
        valid.token_program,
        valid.taker,
    );
    effects.push(Effect::TransferChecked(payment));
    effects.push(Effect::TransferChecked(valid.withdraw()));
    effects.push(Effect::CloseTokenAccount(valid.close()));
    effects.push(
        Effect::CloseEscrow { address: valid.escrow.key, destination: valid.maker },
    );
    Ok(effects)
}

/// Takes the deposit back: sweeps the vault to the maker and closes the vault
/// and the escrow. No deadline stands in the way.
pub fn refund(accounts: &RefundAccounts) -> (r: Result<Vec<Effect>, Error>)
    ensures
        match r {
            Ok(effects) => {
                &&& accounts.fault() is None
                &&& effects@ == accounts.accepted().effects()
            },
            Err(e) => accounts.fault() == Some(e),
        },
{
    let valid = match Refund::try_accounts(accounts) {
        Ok(valid) => valid,
        Err(e) => return Err(e),
    };
    let mut effects: Vec<Effect> = Vec::new();
    push_creation(
        &mut effects,
        &valid.maker_ata_a,
        valid.maker,
        valid.mint_a.key,
        valid.token_program,
        valid.maker,
    );
    effects.push(Effect::TransferChecked(valid.withdraw()));
    effects.push(Effect::CloseTokenAccount(valid.close()));
    effects.push(
        Effect::CloseEscrow { address: valid.escrow.key, destination: valid.maker },
    );
    Ok(effects)
}

/// Checks what can be checked of a repricing before the clock is read: the
/// accounts first, then the price. What is refused here is refused at every
/// time, and whether or not the clock can be read; what is let through can
/// still turn out to have expired, and to have nothing else wrong with it.
pub fn check_update(accounts: &UpdateAccounts, new_receive: u64) -> (r: Result<(), Error>)
    ensures
        match r {
            Ok(_) => accounts.fault() is None && new_receive > 0,
            Err(e) => accounts.fault() == Some(e) || (accounts.fault() is None && new_receive == 0
                && e == Error::RequireGtViolated),
        },
        match r {
            Ok(_) => forall|now: i64|
                {
                    ||| #[trigger] update_fault(*accounts, new_receive, now) is None
                    ||| update_fault(*accounts, new_receive, now) == Some(
                        Error::Escrow(EscrowError::EscrowExpired),
                    )
                },
            Err(e) => forall|now: i64| #[trigger]
                update_fault(*accounts, new_receive, now) == Some(e),
        },
{
    match Update::try_accounts(accounts) {
        Ok(_) => {},
        Err(e) => return Err(e),
    }
    if new_receive == 0 {
        return Err(Error::RequireGtViolated);
    }
    Ok(())
}

/// Reprices a live offer: the amount and the mint of the price. The vault is
/// not touched.
pub fn update(accounts: &UpdateAccounts, new_receive: u64, now: i64) -> (r: Result<
    Vec<Effect>,
    Error,
>)
    ensures
        match r {
            Ok(effects) => {
                &&& update_fault(*accounts, new_receive, now) is None
                &&& effects@ == update_effects(*accounts, new_receive)
            },
            Err(e) => update_fault(*accounts, new_receive, now) == Some(e),
        },
{
    let mut valid = match Update::try_accounts(accounts) {
        Ok(valid) => valid,
        Err(e) => return Err(e),
    };
    match valid.update(new_receive, now) {
        Ok(_) => {},
        Err(e) => return Err(e),
    }
    let mut effects: Vec<Effect> = Vec::new();
    effects.push(
        Effect::StoreEscrow { address: valid.escrow.key, state: valid.escrow.data },
    );
    Ok(effects)
}

} // verus!
