//! The escrow end to end, on a ledger in memory.
//!
//! `World` plays the runtime: it shows the accounts as they are, and carries
//! out the effects that an instruction returns, all or none.

use anchor_lang::prelude::Pubkey;
use escrow::accounts::{
    escrow_standing, token_standing, Mint, Slot, Standing, TokenAccount, Wallet,
};
use escrow::address::Address;
use escrow::constants::{
    ASSOCIATED_TOKEN_PROGRAM, ESCROW_SEED, ID, SYSTEM_PROGRAM, TOKEN_2022_PROGRAM, TOKEN_PROGRAM,
};
use escrow::effect::Effect;
use escrow::error::{Error, EscrowError};
use escrow::instructions::make::{Make, MakeAccounts};
use escrow::instructions::refund::{Refund, RefundAccounts};
use escrow::instructions::take::{Take, TakeAccounts};
use escrow::instructions::update::{Update, UpdateAccounts};
use escrow::state::EscrowState;
use escrow::{check_update, make, refund, take, update};
use std::collections::HashMap;

// Different on purpose: asserting the wrong mint's decimals must fail.
const MINT_A_DECIMALS: u8 = 6;
const MINT_B_DECIMALS: u8 = 9;

const SEED: u64 = 42;
const DEPOSIT: u64 = 100_000_000; // 100 of mint_a
const RECEIVE: u64 = 250_000_000_000; // 250 of mint_b
const LIFETIME: i64 = 3600;

const ESCROW_RENT: u64 = 1_823_520;
const TOKEN_RENT: u64 = 2_039_280;

// ---------------------------------------------------------------- fixtures

#[derive(Clone, Default)]
struct Ledger {
    escrows: HashMap<Address, EscrowState>,
    tokens: HashMap<Address, TokenAccount>,
    mints: HashMap<Address, Mint>,
    supplies: HashMap<Address, u64>,
    lamports: HashMap<Address, u64>,
}

/// Why a transaction failed: refused by the escrow, or by the runtime when it
/// carried out the effects.
#[derive(Debug)]
enum Failure {
    Refused(Error),
    Runtime(&'static str),
}

impl Ledger {
    fn occupied(&self, key: &Address) -> bool {
        self.escrows.contains_key(key)
            || self.tokens.contains_key(key)
            || self.mints.contains_key(key)
    }

    fn lamports_at(&self, key: &Address) -> u64 {
        self.lamports.get(key).copied().unwrap_or(0)
    }

    fn fund(&mut self, payer: Address, key: Address, rent: u64) -> Result<(), Failure> {
        let due = rent.saturating_sub(self.lamports_at(&key));
        let left = self
            .lamports_at(&payer)
            .checked_sub(due)
            .ok_or(Failure::Runtime("insufficient lamports"))?;
        self.lamports.insert(payer, left);
        let funded = self.lamports_at(&key) + due;
        self.lamports.insert(key, funded);
        Ok(())
    }

    fn release(&mut self, key: Address, destination: Address) {
        let lamports = self.lamports.remove(&key).unwrap_or(0);
        *self.lamports.entry(destination).or_insert(0) += lamports;
    }

    fn token(&mut self, key: &Address) -> Result<&mut TokenAccount, Failure> {
        self.tokens.get_mut(key).ok_or(Failure::Runtime("no token account"))
    }

    fn apply(&mut self, effect: &Effect) -> Result<(), Failure> {
        match *effect {
            Effect::CreateEscrow { address, state, payer } => {
                if self.occupied(&address) {
                    return Err(Failure::Runtime("escrow in use"));
                }
                self.escrows.insert(address, state);
                self.fund(payer, address, ESCROW_RENT)
            }
            Effect::StoreEscrow { address, state } => {
                match self.escrows.insert(address, state) {
                    Some(_) => Ok(()),
                    None => Err(Failure::Runtime("no escrow")),
                }
            }
            Effect::CloseEscrow { address, destination } => {
                if self.escrows.remove(&address).is_none() {
                    return Err(Failure::Runtime("no escrow"));
                }
                self.release(address, destination);
                Ok(())
            }
            Effect::CreateTokenAccount(c) => {
                let account = TokenAccount {
                    mint: c.mint,
                    owner: c.owner,
                    amount: 0,
                    token_program: c.token_program,
                };
                if self.occupied(&c.address) {
                    return Err(Failure::Runtime("token account in use"));
                }
                self.tokens.insert(c.address, account);
                self.fund(c.payer, c.address, TOKEN_RENT)
            }
            Effect::TransferChecked(t) => {
                let mint = self.mints[&t.mint];
                if mint.decimals != t.decimals || mint.token_program != t.token_program {
                    return Err(Failure::Runtime("mint mismatch"));
                }
                if self.token(&t.to)?.mint != t.mint {
                    return Err(Failure::Runtime("mint mismatch"));
                }
                let from = self.token(&t.from)?;
                if from.mint != t.mint {
                    return Err(Failure::Runtime("mint mismatch"));
                }
                if from.owner != t.authority {
                    return Err(Failure::Runtime("owner mismatch"));
                }
                from.amount = from
                    .amount
                    .checked_sub(t.amount)
                    .ok_or(Failure::Runtime("insufficient funds"))?;
                self.token(&t.to)?.amount += t.amount;
                Ok(())
            }
            Effect::CloseTokenAccount(c) => {
                let account = *self.token(&c.address)?;
                if account.amount != 0 || account.owner != c.authority {
                    return Err(Failure::Runtime("cannot close"));
                }
                self.tokens.remove(&c.address);
                self.release(c.address, c.destination);
                Ok(())
            }
        }
    }
}

/// Maker holding mint_a, taker holding mint_b, and every address both sides need.
struct World {
    ledger: Ledger,
    now: i64,
    token_program: Address,
    maker: Address,
    taker: Address,
    mint_a: Address,
    mint_b: Address,
    maker_ata_a: Address,
    taker_ata_b: Address,
    escrow: Address,
    vault: Address,
    deadline: i64,
}

impl World {
    fn new() -> Self {
        Self::under(TOKEN_PROGRAM)
    }

    fn under(token_program: [u8; 32]) -> Self {
        let mut w = World {
            ledger: Ledger::default(),
            now: 1_000_000,
            token_program: Address { bytes: token_program },
            maker: unique(),
            taker: unique(),
            mint_a: unique(),
            mint_b: unique(),
            maker_ata_a: unique(),
            taker_ata_b: unique(),
            escrow: unique(),
            vault: unique(),
            deadline: 0,
        };
        w.airdrop(w.maker, 10_000_000_000);
        w.airdrop(w.taker, 10_000_000_000);

        w.mint_a = w.write_mint(MINT_A_DECIMALS);
        w.mint_b = w.write_mint(MINT_B_DECIMALS);

        w.maker_ata_a = w.write_token_account(w.mint_a, w.maker, DEPOSIT);
        w.taker_ata_b = w.write_token_account(w.mint_b, w.taker, RECEIVE);

        w.escrow = escrow_pda(&w.maker, SEED).0;
        w.vault = w.ata(&w.escrow, &w.mint_a);
        w.deadline = w.now + LIFETIME;
        w
    }

    fn airdrop(&mut self, key: Address, lamports: u64) {
        self.ledger.lamports.insert(key, lamports);
    }

    fn write_mint(&mut self, decimals: u8) -> Address {
        let key = unique();
        self.ledger.mints.insert(key, Mint { decimals, token_program: self.token_program });
        self.ledger.supplies.insert(key, 0);
        key
    }

    /// Keeps the mint's supply equal to the sum of every balance written for it.
    fn write_token_account(&mut self, mint: Address, owner: Address, amount: u64) -> Address {
        let key = self.ata(&owner, &mint);
        let previous = self.balance(&key);
        let supply = self.ledger.supplies[&mint] + amount - previous;
        self.ledger.supplies.insert(mint, supply);
        self.ledger.tokens.insert(
            key,
            TokenAccount { mint, owner, amount, token_program: self.token_program },
        );
        key
    }

    fn ata(&self, owner: &Address, mint: &Address) -> Address {
        ata_under(owner, mint, &self.token_program)
    }

    fn set_time(&mut self, now: i64) {
        self.now = now;
    }

    fn signer(&self, key: Address) -> Wallet {
        Wallet { key, is_signer: true, is_writable: true }
    }

    fn passive(&self, key: Address) -> Wallet {
        Wallet { key, is_signer: false, is_writable: true }
    }

    fn slot<T>(&self, key: Address, is_writable: bool, data: Option<T>) -> Slot<T> {
        let is_foreign = data.is_none() && self.ledger.occupied(&key);
        Slot { key, is_writable, is_foreign, data }
    }

    fn mint_slot(&self, key: Address) -> Slot<Mint> {
        self.slot(key, false, self.ledger.mints.get(&key).copied())
    }

    fn token_slot(&self, key: Address) -> Slot<TokenAccount> {
        self.slot(key, true, self.ledger.tokens.get(&key).copied())
    }

    fn escrow_slot(&self, key: Address) -> Slot<EscrowState> {
        self.slot(key, true, self.ledger.escrows.get(&key).copied())
    }

    fn make_accounts(&self) -> MakeAccounts {
        MakeAccounts {
            maker: self.signer(self.maker),
            mint_a: self.mint_slot(self.mint_a),
            mint_b: self.mint_slot(self.mint_b),
            maker_ata_a: self.token_slot(self.maker_ata_a),
            escrow: self.escrow_slot(self.escrow),
            vault: self.token_slot(self.vault),
            token_program: self.token_program,
        }
    }

    fn take_accounts(&self, mint_b: Address) -> TakeAccounts {
        TakeAccounts {
            taker: self.signer(self.taker),
            maker: self.passive(self.maker),
            mint_a: self.mint_slot(self.mint_a),
            mint_b: self.mint_slot(mint_b),
            taker_ata_a: self.token_slot(self.ata(&self.taker, &self.mint_a)),
            taker_ata_b: self.token_slot(self.ata(&self.taker, &mint_b)),
            maker_ata_b: self.token_slot(self.ata(&self.maker, &mint_b)),
            escrow: self.escrow_slot(self.escrow),
            vault: self.token_slot(self.vault),
            token_program: self.token_program,
        }
    }

    fn update_accounts(&self, signer: Address) -> UpdateAccounts {
        UpdateAccounts {
            maker: self.signer(signer),
            mint_b: self.mint_slot(self.mint_b),
            escrow: self.escrow_slot(self.escrow),
            token_program: self.token_program,
        }
    }

    fn refund_accounts(&self, signer: Address) -> RefundAccounts {
        RefundAccounts {
            maker: self.signer(signer),
            maker_ata_a: self.token_slot(self.ata(&signer, &self.mint_a)),
            mint_a: self.mint_slot(self.mint_a),
            escrow: self.escrow_slot(self.escrow),
            vault: self.token_slot(self.vault),
            token_program: self.token_program,
        }
    }

    fn execute(&mut self, outcome: Result<Vec<Effect>, Error>) -> Result<(), Failure> {
        let effects = outcome.map_err(Failure::Refused)?;
        let mut next = self.ledger.clone();
        for effect in &effects {
            next.apply(effect)?;
        }
        self.ledger = next;
        Ok(())
    }

    fn make(&mut self) -> Result<(), Failure> {
        self.make_with_deadline(self.deadline)
    }

    fn make_with_deadline(&mut self, deadline: i64) -> Result<(), Failure> {
        let outcome = make(&self.make_accounts(), SEED, RECEIVE, DEPOSIT, deadline, self.now);
        self.execute(outcome)
    }

    /// Parameterized so a test can pass a counterfeit mint or a stale price.
    fn take_with(&mut self, mint_b: Address, expected_transfer: u64) -> Result<(), Failure> {
        let outcome = take(&self.take_accounts(mint_b), expected_transfer, self.now);
        self.execute(outcome)
    }

    fn take(&mut self) -> Result<(), Failure> {
        self.take_with(self.mint_b, RECEIVE)
    }

    fn update(&mut self, signer: Address, new_receive: u64) -> Result<(), Failure> {
        let outcome = update(&self.update_accounts(signer), new_receive, self.now);
        self.execute(outcome)
    }

    fn refund_as(&mut self, signer: Address) -> Result<(), Failure> {
        let outcome = refund(&self.refund_accounts(signer));
        self.execute(outcome)
    }

    /// Zero for a missing account; existence is asserted separately where it matters.
    fn balance(&self, key: &Address) -> u64 {
        self.ledger.tokens.get(key).map_or(0, |t| t.amount)
    }

    fn supply(&self, mint: &Address) -> u64 {
        self.ledger.supplies[mint]
    }

    fn held(&self, mint: &Address) -> u64 {
        self.ledger.tokens.values().filter(|t| t.mint == *mint).map(|t| t.amount).sum()
    }

    fn escrow_state(&self) -> Option<EscrowState> {
        self.ledger.escrows.get(&self.escrow).copied()
    }
}

// ------------------------------------------------------------------ helpers

fn unique() -> Address {
    Address { bytes: Pubkey::new_unique().to_bytes() }
}

fn pubkey(address: &Address) -> Pubkey {
    Pubkey::new_from_array(address.bytes)
}

fn escrow_pda(maker: &Address, seed: u64) -> (Address, u8) {
    let (key, bump) = Pubkey::find_program_address(
        &[ESCROW_SEED.as_ref(), maker.bytes.as_ref(), &seed.to_le_bytes()],
        &Pubkey::new_from_array(ID),
    );
    (Address { bytes: key.to_bytes() }, bump)
}

/// Canonical ATA: hashes under the associated token program, not ours.
fn ata_under(owner: &Address, mint: &Address, token_program: &Address) -> Address {
    let key = anchor_spl::associated_token::get_associated_token_address_with_program_id(
        &pubkey(owner),
        &pubkey(mint),
        &pubkey(token_program),
    );
    Address { bytes: key.to_bytes() }
}

fn assert_failed_with(result: Result<(), Failure>, needle: &str) {
    let err = format!("{:?}", result.expect_err("expected this to be rejected"));
    assert!(err.contains(needle), "expected a `{needle}` failure, got:\n{err}");
}

// -------------------------------------------------------------------- tests

#[test]
fn make_locks_the_deposit_and_records_the_terms() {
    let mut w = World::new();
    w.make().unwrap();

    assert_eq!(w.balance(&w.vault), DEPOSIT, "deposit should sit in the vault");
    assert_eq!(w.balance(&w.maker_ata_a), 0, "maker should be drained");

    // Transfers are supply-neutral.
    assert_eq!(w.supply(&w.mint_a), DEPOSIT);
    assert_eq!(w.supply(&w.mint_b), RECEIVE);
    assert_eq!(w.held(&w.mint_a), DEPOSIT);
    assert_eq!(w.held(&w.mint_b), RECEIVE);

    // No `deposit` field: the vault balance already records it.
    let state = w.escrow_state().expect("escrow should exist");
    assert_eq!(state.seed, SEED);
    assert_eq!(state.maker, w.maker);
    assert_eq!(state.mint_a, w.mint_a);
    assert_eq!(state.mint_b, w.mint_b);
    assert_eq!(state.receive, RECEIVE);
    assert_eq!(state.deadline, w.deadline);

    // A non-canonical stored bump breaks every later check of the address.
    let (_, canonical) = escrow_pda(&w.maker, SEED);
    assert_eq!(state.bump, canonical);
}

#[test]
fn take_completes_the_swap_and_reclaims_rent() {
    let mut w = World::new();
    w.make().unwrap();

    let maker_lamports_before = w.ledger.lamports_at(&w.maker);
    w.take().unwrap();

    // Created during take.
    assert_eq!(w.balance(&w.ata(&w.taker, &w.mint_a)), DEPOSIT);
    assert_eq!(w.balance(&w.ata(&w.maker, &w.mint_b)), RECEIVE);
    assert_eq!(w.balance(&w.taker_ata_b), 0, "taker paid in full");

    // Maker never signed, so the balance rise is purely reclaimed rent.
    assert!(w.escrow_state().is_none(), "escrow should be closed");
    assert_eq!(w.balance(&w.vault), 0);
    assert!(
        w.ledger.lamports_at(&w.maker) > maker_lamports_before,
        "maker should have received the reclaimed rent"
    );
}

#[test]
fn refund_returns_the_deposit_to_the_maker() {
    let mut w = World::new();
    w.make().unwrap();
    assert_eq!(w.balance(&w.maker_ata_a), 0);

    w.refund_as(w.maker).unwrap();

    assert_eq!(w.balance(&w.maker_ata_a), DEPOSIT, "deposit should come back");
    assert_eq!(w.balance(&w.vault), 0);
    assert!(w.escrow_state().is_none());
}

#[test]
fn take_with_a_counterfeit_mint_b_is_rejected() {
    let mut w = World::new();
    w.make().unwrap();

    // Without the check on the mint this buys the real deposit for nothing.
    let counterfeit = w.write_mint(MINT_B_DECIMALS);
    w.write_token_account(counterfeit, w.taker, RECEIVE);

    assert_failed_with(w.take_with(counterfeit, RECEIVE), "ConstraintHasOne");
    assert_eq!(w.balance(&w.vault), DEPOSIT, "vault must be untouched");
}

#[test]
fn refund_by_a_stranger_is_rejected() {
    let mut w = World::new();
    w.make().unwrap();

    let stranger = unique();
    w.airdrop(stranger, 10_000_000_000);

    // Stranger signs and passes their own token account.
    assert_failed_with(w.refund_as(stranger), "ConstraintHasOne");
    assert_eq!(w.balance(&w.vault), DEPOSIT, "vault must be untouched");
}

#[test]
fn an_escrow_cannot_be_taken_twice() {
    let mut w = World::new();
    w.make().unwrap();
    w.take().unwrap();

    // The account is gone, so validation rejects it before any transfer.
    assert_failed_with(w.take(), "AccountNotInitialized");
    assert_eq!(w.balance(&w.taker_ata_b), 0, "taker must not pay twice");
}

#[test]
fn maker_can_reprice_and_the_next_taker_pays_the_new_price() {
    let mut w = World::new();
    w.make().unwrap();

    let new_price = RECEIVE * 2;
    w.write_token_account(w.mint_b, w.taker, new_price);
    // Overwrites an existing balance, so supply must move by the delta, not the total.
    assert_eq!(w.supply(&w.mint_b), new_price);

    w.update(w.maker, new_price).unwrap();
    assert_eq!(w.escrow_state().unwrap().receive, new_price);

    // update rewrites state only.
    assert_eq!(w.balance(&w.vault), DEPOSIT);

    w.take_with(w.mint_b, new_price).unwrap();
    assert_eq!(w.balance(&w.ata(&w.maker, &w.mint_b)), new_price);
}

#[test]
fn take_is_rejected_when_the_maker_repriced_mid_flight() {
    let mut w = World::new();
    w.make().unwrap();

    // Maker raises the ask after the taker committed to RECEIVE.
    w.update(w.maker, RECEIVE * 10).unwrap();

    assert_failed_with(w.take_with(w.mint_b, RECEIVE), "TermsChanged");
    assert_eq!(w.balance(&w.taker_ata_b), RECEIVE, "taker must not have paid");
    assert_eq!(w.balance(&w.vault), DEPOSIT, "escrow still open");
}

#[test]
fn update_by_a_stranger_is_rejected() {
    let mut w = World::new();
    w.make().unwrap();

    let stranger = unique();
    w.airdrop(stranger, 10_000_000_000);

    assert_failed_with(w.update(stranger, 1), "ConstraintHasOne");
    assert_eq!(w.escrow_state().unwrap().receive, RECEIVE, "terms must be unchanged");
}

#[test]
fn make_with_a_past_deadline_is_rejected() {
    let mut w = World::new();
    let past = w.now - 1;

    assert_failed_with(w.make_with_deadline(past), "DeadlineInPast");
    assert!(w.escrow_state().is_none());
    assert_eq!(w.balance(&w.maker_ata_a), DEPOSIT, "deposit never moved");
}

#[test]
fn take_at_the_deadline_is_rejected() {
    let mut w = World::new();
    w.make().unwrap();

    // The deadline is the first invalid instant, not the last valid one.
    w.set_time(w.deadline);

    assert_failed_with(w.take(), "EscrowExpired");
    assert_eq!(w.balance(&w.vault), DEPOSIT, "vault must be untouched");
    assert_eq!(w.balance(&w.taker_ata_b), RECEIVE, "taker must not have paid");
}

#[test]
fn take_one_second_before_the_deadline_still_works() {
    let mut w = World::new();
    w.make().unwrap();

    w.set_time(w.deadline - 1);

    w.take().unwrap();
    assert_eq!(w.balance(&w.ata(&w.taker, &w.mint_a)), DEPOSIT);
}

#[test]
fn refund_after_the_deadline_still_works() {
    let mut w = World::new();
    w.make().unwrap();

    // Expiry removes an option, it never strands funds.
    w.set_time(w.deadline + LIFETIME);

    w.refund_as(w.maker).unwrap();
    assert_eq!(w.balance(&w.maker_ata_a), DEPOSIT);
    assert!(w.escrow_state().is_none());
}

#[test]
fn update_after_the_deadline_is_rejected() {
    let mut w = World::new();
    w.make().unwrap();
    w.set_time(w.deadline);

    assert_failed_with(w.update(w.maker, RECEIVE * 2), "EscrowExpired");
    assert_eq!(w.escrow_state().unwrap().receive, RECEIVE);
}

#[test]
fn update_to_a_zero_price_is_rejected() {
    let mut w = World::new();
    w.make().unwrap();

    // A zero ask drains the vault for free.
    assert_failed_with(w.update(w.maker, 0), "RequireGtViolated");
    assert_eq!(w.escrow_state().unwrap().receive, RECEIVE);
}

// ------------------------------------------------------- more of the same

#[test]
fn make_with_a_zero_price_is_rejected() {
    let w = World::new();
    let outcome = make(&w.make_accounts(), SEED, 0, DEPOSIT, w.deadline, w.now);
    assert_eq!(outcome.unwrap_err(), Error::RequireGtViolated);
}

#[test]
fn make_at_its_own_deadline_is_rejected() {
    let mut w = World::new();
    let now = w.now;
    assert_failed_with(w.make_with_deadline(now), "DeadlineInPast");
    w.make_with_deadline(now + 1).unwrap();
}

#[test]
fn make_with_nothing_to_deposit_opens_an_empty_vault() {
    let mut w = World::new();
    let outcome = make(&w.make_accounts(), SEED, RECEIVE, 0, w.deadline, w.now);
    w.execute(outcome).unwrap();
    assert_eq!(w.balance(&w.vault), 0);
    assert_eq!(w.balance(&w.maker_ata_a), DEPOSIT);
    w.take().unwrap();
    assert_eq!(w.balance(&w.ata(&w.maker, &w.mint_b)), RECEIVE);
}

#[test]
fn the_rent_goes_back_to_the_maker() {
    let mut w = World::new();
    w.make().unwrap();
    assert_eq!(w.ledger.lamports_at(&w.maker), 10_000_000_000 - ESCROW_RENT - TOKEN_RENT);
    w.take().unwrap();
    assert_eq!(w.ledger.lamports_at(&w.maker), 10_000_000_000);
    // The taker paid for both of the accounts that were created.
    assert_eq!(w.ledger.lamports_at(&w.taker), 10_000_000_000 - 2 * TOKEN_RENT);
    assert_eq!(w.ledger.lamports_at(&w.escrow), 0);
    assert_eq!(w.ledger.lamports_at(&w.vault), 0);
}

#[test]
fn a_refund_undoes_the_make() {
    let mut w = World::new();
    w.make().unwrap();
    w.refund_as(w.maker).unwrap();
    assert_eq!(w.ledger.lamports_at(&w.maker), 10_000_000_000);
    assert_eq!(w.ledger.tokens.len(), 2);
    assert_eq!(w.balance(&w.maker_ata_a), DEPOSIT);
    assert_eq!(w.balance(&w.taker_ata_b), RECEIVE);
    assert!(w.ledger.escrows.is_empty());
    // And the same offer can be made again.
    w.make().unwrap();
    assert_eq!(w.balance(&w.vault), DEPOSIT);
}

#[test]
fn a_refund_creates_the_token_account_of_a_maker_who_closed_it() {
    let mut w = World::new();
    w.make().unwrap();
    w.ledger.tokens.remove(&w.maker_ata_a);
    w.refund_as(w.maker).unwrap();
    assert_eq!(w.balance(&w.maker_ata_a), DEPOSIT);
    assert_eq!(w.ledger.lamports_at(&w.maker), 10_000_000_000 - TOKEN_RENT);
}

#[test]
fn a_refunded_offer_is_gone() {
    let mut w = World::new();
    w.make().unwrap();
    w.refund_as(w.maker).unwrap();
    assert_failed_with(w.refund_as(w.maker), "AccountNotInitialized");
    assert_failed_with(w.take(), "AccountNotInitialized");
    assert_failed_with(w.update(w.maker, 1), "AccountNotInitialized");
}

#[test]
fn whatever_was_sent_to_the_vault_is_swept_with_it() {
    let mut w = World::new();
    w.make().unwrap();
    w.write_token_account(w.mint_a, w.escrow, DEPOSIT + 7);
    w.take().unwrap();
    assert_eq!(w.balance(&w.ata(&w.taker, &w.mint_a)), DEPOSIT + 7);
}

#[test]
fn a_taker_without_the_price_pays_nothing() {
    let mut w = World::new();
    w.make().unwrap();
    w.write_token_account(w.mint_b, w.taker, RECEIVE - 1);
    assert_failed_with(w.take(), "insufficient funds");
    assert_eq!(w.balance(&w.taker_ata_b), RECEIVE - 1);
    assert_eq!(w.balance(&w.vault), DEPOSIT);
    assert!(w.escrow_state().is_some());
}

#[test]
fn both_token_programs_work() {
    let mut w = World::under(TOKEN_2022_PROGRAM);
    w.make().unwrap();
    w.take().unwrap();
    assert_eq!(w.balance(&w.ata(&w.taker, &w.mint_a)), DEPOSIT);
    assert_eq!(w.balance(&w.ata(&w.maker, &w.mint_b)), RECEIVE);
}

#[test]
fn one_maker_runs_several_offers_on_the_same_pair() {
    let mut w = World::new();
    w.make().unwrap();
    let (first, first_vault) = (w.escrow, w.vault);
    w.write_token_account(w.mint_a, w.maker, 5);
    w.escrow = escrow_pda(&w.maker, SEED + 1).0;
    w.vault = w.ata(&w.escrow, &w.mint_a);
    let outcome = make(&w.make_accounts(), SEED + 1, 3, 5, w.deadline, w.now);
    w.execute(outcome).unwrap();
    assert_ne!(first, w.escrow);
    assert_eq!(w.balance(&first_vault), DEPOSIT);
    assert_eq!(w.balance(&w.vault), 5);
    w.refund_as(w.maker).unwrap();
    assert_eq!(w.balance(&first_vault), DEPOSIT);
    assert_eq!(w.ledger.escrows[&first].receive, RECEIVE);
}

#[test]
fn the_maker_can_reprice_in_another_mint() {
    let mut w = World::new();
    w.make().unwrap();
    let before = w.escrow_state().unwrap();
    let other = w.write_mint(2);
    let mut accounts = w.update_accounts(w.maker);
    accounts.mint_b = w.mint_slot(other);
    let outcome = update(&accounts, 11, w.now);
    w.execute(outcome).unwrap();
    let state = w.escrow_state().unwrap();
    assert_eq!(state.mint_b, other);
    assert_eq!(state.receive, 11);
    assert_eq!(state.seed, before.seed);
    assert_eq!(state.maker, before.maker);
    assert_eq!(state.mint_a, before.mint_a);
    assert_eq!(state.deadline, before.deadline);
    assert_eq!(state.bump, before.bump);
    // A taker who still pays in the old mint is rejected.
    assert_failed_with(w.take_with(w.mint_b, 11), "ConstraintHasOne");
}

#[test]
fn tokens_are_neither_made_nor_lost() {
    let mut w = World::new();
    w.make().unwrap();
    w.update(w.maker, RECEIVE).unwrap();
    w.take().unwrap();
    assert_eq!(w.held(&w.mint_a), DEPOSIT);
    assert_eq!(w.held(&w.mint_b), RECEIVE);
}

#[test]
fn the_maker_can_take_the_own_offer() {
    let mut w = World::new();
    w.make().unwrap();
    w.taker = w.maker;
    w.write_token_account(w.mint_b, w.maker, RECEIVE);
    w.take().unwrap();
    assert_eq!(w.balance(&w.ata(&w.maker, &w.mint_b)), RECEIVE);
    assert_eq!(w.balance(&w.maker_ata_a), DEPOSIT);
}

#[test]
fn a_maker_who_takes_the_own_offer_has_the_rent_back() {
    let mut w = World::new();
    w.make().unwrap();
    w.taker = w.maker;
    w.write_token_account(w.mint_b, w.maker, RECEIVE);
    w.take().unwrap();
    assert_eq!(w.ledger.lamports_at(&w.maker), 10_000_000_000);
    assert_eq!(w.ledger.lamports_at(&w.escrow), 0);
    assert_eq!(w.ledger.lamports_at(&w.vault), 0);
}

#[test]
fn a_maker_who_takes_the_own_offer_pays_for_a_missing_account() {
    let mut w = World::new();
    w.make().unwrap();
    w.taker = w.maker;
    w.write_token_account(w.mint_b, w.maker, RECEIVE);
    w.ledger.tokens.remove(&w.maker_ata_a);
    w.take().unwrap();
    assert_eq!(w.ledger.lamports_at(&w.maker), 10_000_000_000 - TOKEN_RENT);
    assert_eq!(w.ledger.lamports_at(&w.maker_ata_a), TOKEN_RENT);
    assert_eq!(w.balance(&w.maker_ata_a), DEPOSIT);
}

#[test]
fn a_maker_can_take_the_own_offer_of_one_mint_for_itself() {
    let mut w = World::new();
    w.mint_b = w.mint_a;
    w.write_token_account(w.mint_a, w.maker, DEPOSIT + RECEIVE);
    w.make().unwrap();
    w.taker = w.maker;
    w.take().unwrap();
    assert_eq!(w.balance(&w.maker_ata_a), DEPOSIT + RECEIVE);
    assert_eq!(w.ledger.lamports_at(&w.maker), 10_000_000_000);
}

#[test]
fn a_refund_undoes_the_make_after_any_number_of_repricings() {
    let mut w = World::new();
    w.make().unwrap();
    for price in 1..5 {
        w.update(w.maker, price).unwrap();
        assert_failed_with(w.update(w.maker, 0), "RequireGtViolated");
        assert_eq!(w.escrow_state().unwrap().receive, price);
        assert_eq!(w.escrow_state().unwrap().deadline, w.deadline);
    }
    w.refund_as(w.maker).unwrap();
    assert_eq!(w.ledger.tokens.len(), 2);
    assert_eq!(w.balance(&w.maker_ata_a), DEPOSIT);
    assert_eq!(w.held(&w.mint_a), DEPOSIT);
    assert_eq!(w.held(&w.mint_b), RECEIVE);
    assert!(w.ledger.escrows.is_empty());
}

#[test]
fn the_rent_comes_back_after_any_number_of_repricings() {
    let mut w = World::new();
    w.make().unwrap();
    w.update(w.maker, 1).unwrap();
    w.update(w.maker, RECEIVE).unwrap();
    w.take().unwrap();
    assert_eq!(w.ledger.lamports_at(&w.maker), 10_000_000_000);
    assert_eq!(w.balance(&w.ata(&w.taker, &w.mint_a)), DEPOSIT);
    assert_eq!(w.balance(&w.ata(&w.maker, &w.mint_b)), RECEIVE);

    let mut w = World::new();
    w.make().unwrap();
    w.update(w.maker, 1).unwrap();
    w.refund_as(w.maker).unwrap();
    assert_eq!(w.ledger.lamports_at(&w.maker), 10_000_000_000);
    assert_eq!(w.ledger.lamports_at(&w.taker), 10_000_000_000);
}

#[test]
fn a_take_pays_for_the_accounts_it_creates_and_nothing_else() {
    let mut w = World::new();
    w.make().unwrap();
    let stranger = unique();
    w.airdrop(stranger, 5);
    let maker_ata_b = w.ata(&w.maker, &w.mint_b);
    // What lies at an address already counts towards the rent.
    w.airdrop(maker_ata_b, 1_000);
    w.take().unwrap();
    assert_eq!(w.ledger.lamports_at(&maker_ata_b), TOKEN_RENT);
    assert_eq!(w.ledger.lamports_at(&w.ata(&w.taker, &w.mint_a)), TOKEN_RENT);
    assert_eq!(w.ledger.lamports_at(&w.taker), 10_000_000_000 - 2 * TOKEN_RENT + 1_000);
    assert_eq!(w.ledger.lamports_at(&stranger), 5);
}

#[test]
fn a_take_leaves_the_accounts_with_their_owners() {
    let mut w = World::new();
    w.make().unwrap();
    w.take().unwrap();
    let paying = w.ledger.tokens[&w.taker_ata_b];
    assert_eq!((paying.owner, paying.mint, paying.amount), (w.taker, w.mint_b, 0));
    assert_eq!(paying.token_program, w.token_program);
    let paid = w.ledger.tokens[&w.ata(&w.maker, &w.mint_b)];
    assert_eq!((paid.owner, paid.mint, paid.amount), (w.maker, w.mint_b, RECEIVE));
    assert_eq!(paid.token_program, w.token_program);
    let received = w.ledger.tokens[&w.ata(&w.taker, &w.mint_a)];
    assert_eq!((received.owner, received.mint, received.amount), (w.taker, w.mint_a, DEPOSIT));
    assert_eq!(received.token_program, w.token_program);
}

#[test]
fn an_offer_that_was_taken_stays_gone_until_it_is_made_again() {
    let mut w = World::new();
    w.make().unwrap();
    w.take().unwrap();
    for _ in 0..3 {
        assert_failed_with(w.take(), "AccountNotInitialized");
        assert_failed_with(w.refund_as(w.maker), "AccountNotInitialized");
        assert_failed_with(w.update(w.maker, 1), "AccountNotInitialized");
        assert!(w.escrow_state().is_none());
    }
    w.write_token_account(w.mint_a, w.maker, DEPOSIT);
    w.make().unwrap();
    assert!(w.escrow_state().is_some());
}

#[test]
fn nothing_but_a_refund_changes_an_expired_offer() {
    let mut w = World::new();
    w.make().unwrap();
    for delay in 0..3 {
        w.set_time(w.deadline + delay);
        assert_failed_with(w.update(w.maker, 1), "EscrowExpired");
        assert_failed_with(w.take(), "EscrowExpired");
        assert_failed_with(w.make(), "AccountAlreadyInUse");
        assert_eq!(w.escrow_state().unwrap().receive, RECEIVE);
        assert_eq!(w.balance(&w.vault), DEPOSIT);
    }
    w.refund_as(w.maker).unwrap();
    assert!(w.escrow_state().is_none());
}

// ------------------------------------------------------------ the effects

#[test]
fn make_asks_for_three_effects() {
    let w = World::new();
    let effects = make(&w.make_accounts(), SEED, RECEIVE, DEPOSIT, w.deadline, w.now).unwrap();
    assert_eq!(effects.len(), 3);
    match effects[0] {
        Effect::CreateEscrow { address, state, payer } => {
            assert_eq!(address, w.escrow);
            assert_eq!(payer, w.maker);
            assert_eq!(state.receive, RECEIVE);
        }
        _ => panic!("{:?}", effects[0]),
    }
    match effects[1] {
        Effect::CreateTokenAccount(c) => {
            assert_eq!(c.address, w.vault);
            assert_eq!(c.owner, w.escrow);
            assert_eq!(c.mint, w.mint_a);
            assert_eq!(c.payer, w.maker);
            assert_eq!(c.token_program, w.token_program);
        }
        _ => panic!("{:?}", effects[1]),
    }
    match effects[2] {
        Effect::TransferChecked(t) => {
            assert_eq!(t.from, w.maker_ata_a);
            assert_eq!(t.to, w.vault);
            assert_eq!(t.mint, w.mint_a);
            assert_eq!(t.authority, w.maker);
            assert_eq!(t.amount, DEPOSIT);
            assert_eq!(t.decimals, MINT_A_DECIMALS);
        }
        _ => panic!("{:?}", effects[2]),
    }
}

#[test]
fn take_asks_for_six_effects_when_both_accounts_are_missing() {
    let mut w = World::new();
    w.make().unwrap();
    let effects = take(&w.take_accounts(w.mint_b), RECEIVE, w.now).unwrap();
    assert_eq!(effects.len(), 6);
    match (effects[0], effects[1]) {
        (Effect::CreateTokenAccount(a), Effect::CreateTokenAccount(b)) => {
            assert_eq!(a.owner, w.taker);
            assert_eq!(a.mint, w.mint_a);
            assert_eq!(a.payer, w.taker);
            assert_eq!(b.owner, w.maker);
            assert_eq!(b.mint, w.mint_b);
            assert_eq!(b.payer, w.taker);
        }
        _ => panic!("{:?}", effects),
    }
    match (effects[2], effects[3]) {
        (Effect::TransferChecked(payment), Effect::TransferChecked(sweep)) => {
            assert_eq!(payment.amount, RECEIVE);
            assert_eq!(payment.decimals, MINT_B_DECIMALS);
            assert_eq!(payment.authority, w.taker);
            assert_eq!(sweep.amount, DEPOSIT);
            assert_eq!(sweep.decimals, MINT_A_DECIMALS);
            assert_eq!(sweep.authority, w.escrow);
        }
        _ => panic!("{:?}", effects),
    }
    match (effects[4], effects[5]) {
        (Effect::CloseTokenAccount(c), Effect::CloseEscrow { address, destination }) => {
            assert_eq!(c.address, w.vault);
            assert_eq!(c.destination, w.maker);
            assert_eq!(address, w.escrow);
            assert_eq!(destination, w.maker);
        }
        _ => panic!("{:?}", effects),
    }
}

#[test]
fn update_asks_for_one_effect() {
    let mut w = World::new();
    w.make().unwrap();
    let effects = update(&w.update_accounts(w.maker), 9, w.now).unwrap();
    assert_eq!(effects.len(), 1);
    match effects[0] {
        Effect::StoreEscrow { address, state } => {
            assert_eq!(address, w.escrow);
            assert_eq!(state.receive, 9);
        }
        _ => panic!("{:?}", effects[0]),
    }
}

// ----------------------------------------------------------- the handlers

#[test]
fn a_refused_repricing_leaves_the_terms_alone() {
    let mut w = World::new();
    w.make().unwrap();
    let mut valid = Update::try_accounts(&w.update_accounts(w.maker)).unwrap();
    assert_eq!(valid.update(0, w.now), Err(Error::RequireGtViolated));
    assert_eq!(valid.escrow.data.receive, RECEIVE);
    assert_eq!(
        valid.update(1, w.deadline),
        Err(Error::Escrow(EscrowError::EscrowExpired))
    );
    assert_eq!(valid.escrow.data.receive, RECEIVE);
    assert_eq!(valid.update(1, w.deadline - 1), Ok(()));
    assert_eq!(valid.escrow.data.receive, 1);
}

#[test]
fn a_zero_price_is_refused_whatever_the_clock_says() {
    let mut w = World::new();
    w.make().unwrap();
    let accounts = w.update_accounts(w.maker);
    assert_eq!(check_update(&accounts, 0), Err(Error::RequireGtViolated));
    assert_eq!(update(&accounts, 0, w.deadline).unwrap_err(), Error::RequireGtViolated);
    assert_eq!(update(&accounts, 0, i64::MIN).unwrap_err(), Error::RequireGtViolated);
    // What is left to the clock is whether the offer is still live.
    assert_eq!(check_update(&accounts, 1), Ok(()));
    assert_eq!(
        update(&accounts, 1, w.deadline).unwrap_err(),
        Error::Escrow(EscrowError::EscrowExpired)
    );
}

#[test]
fn the_accounts_are_looked_at_before_the_price() {
    let mut w = World::new();
    w.make().unwrap();
    let accounts = w.update_accounts(w.taker);
    assert_eq!(check_update(&accounts, 0), Err(Error::ConstraintHasOne));
    assert_eq!(check_update(&accounts, RECEIVE), Err(Error::ConstraintHasOne));
    let unsigned = UpdateAccounts { maker: w.passive(w.maker), ..w.update_accounts(w.maker) };
    assert_eq!(check_update(&unsigned, 0), Err(Error::AccountNotSigner));
}

#[test]
fn expiry_is_looked_at_before_the_price() {
    let mut w = World::new();
    w.make().unwrap();
    let valid = Take::try_accounts(&w.take_accounts(w.mint_b)).unwrap();
    assert_eq!(
        valid.transfer(RECEIVE + 1, w.deadline).unwrap_err(),
        Error::Escrow(EscrowError::EscrowExpired)
    );
    assert_eq!(
        valid.transfer(RECEIVE + 1, w.now).unwrap_err(),
        Error::Escrow(EscrowError::TermsChanged)
    );
    assert_eq!(valid.transfer(RECEIVE, w.now).unwrap().amount, RECEIVE);
    assert_eq!(valid.withdraw().amount, DEPOSIT);
    assert_eq!(valid.close().destination, w.maker);
}

#[test]
fn the_parts_of_make_and_refund_agree() {
    let mut w = World::new();
    let (valid, bump) = Make::try_accounts(&w.make_accounts(), SEED).unwrap();
    assert_eq!(bump, escrow_pda(&w.maker, SEED).1);
    let state = valid.init_escrow(SEED, RECEIVE, w.deadline, bump, w.now).unwrap();
    assert_eq!(state.deadline, w.deadline);
    assert_eq!(valid.deposit(DEPOSIT).to, w.vault);
    assert_eq!(valid.create_vault().owner, w.escrow);

    w.make().unwrap();
    let back = Refund::try_accounts(&w.refund_accounts(w.maker)).unwrap();
    assert_eq!(back.withdraw().amount, DEPOSIT);
    assert_eq!(back.withdraw().to, w.maker_ata_a);
    assert_eq!(back.close().address, w.vault);
}

#[test]
fn the_signer_seeds_derive_the_escrow() {
    let mut w = World::new();
    w.make().unwrap();
    let seeds = w.escrow_state().unwrap().signer_seeds();
    let slices: Vec<&[u8]> = seeds.iter().map(|s| s.as_slice()).collect();
    let derived = Pubkey::create_program_address(&slices, &Pubkey::new_from_array(ID)).unwrap();
    assert_eq!(derived.to_bytes(), w.escrow.bytes);
}

// --------------------------------------------------------- every refusal

#[test]
fn nothing_happens_without_a_signature() {
    let mut w = World::new();
    let mut a = w.make_accounts();
    a.maker.is_signer = false;
    assert_eq!(
        make(&a, SEED, RECEIVE, DEPOSIT, w.deadline, w.now).unwrap_err(),
        Error::AccountNotSigner
    );
    w.make().unwrap();
    let mut a = w.take_accounts(w.mint_b);
    a.taker.is_signer = false;
    assert_eq!(take(&a, RECEIVE, w.now).unwrap_err(), Error::AccountNotSigner);
    let mut a = w.refund_accounts(w.maker);
    a.maker.is_signer = false;
    assert_eq!(refund(&a).unwrap_err(), Error::AccountNotSigner);
    let mut a = w.update_accounts(w.maker);
    a.maker.is_signer = false;
    assert_eq!(update(&a, 1, w.now).unwrap_err(), Error::AccountNotSigner);
}

#[test]
fn accounts_of_another_kind_are_rejected() {
    let w = World::new();
    let mut accounts = w.make_accounts();
    accounts.escrow.is_foreign = true;
    let outcome = make(&accounts, SEED, RECEIVE, DEPOSIT, w.deadline, w.now);
    assert_eq!(outcome.unwrap_err(), Error::AccountAlreadyInUse);
    let mut accounts = w.make_accounts();
    accounts.vault.is_foreign = true;
    let outcome = make(&accounts, SEED, RECEIVE, DEPOSIT, w.deadline, w.now);
    assert_eq!(outcome.unwrap_err(), Error::IllegalOwner);

    let mut w = World::new();
    w.make().unwrap();
    let mut accounts = w.update_accounts(w.maker);
    accounts.escrow = Slot { is_foreign: true, data: None, ..accounts.escrow };
    assert_eq!(check_update(&accounts, 0), Err(Error::AccountOwnedByWrongProgram));
    let mut accounts = w.refund_accounts(w.maker);
    accounts.escrow = Slot { is_foreign: true, data: None, ..accounts.escrow };
    assert_eq!(refund(&accounts).unwrap_err(), Error::AccountOwnedByWrongProgram);
    let mut accounts = w.take_accounts(w.mint_b);
    accounts.escrow = Slot { is_foreign: true, data: None, ..accounts.escrow };
    let outcome = take(&accounts, RECEIVE, w.now);
    assert_eq!(outcome.unwrap_err(), Error::AccountOwnedByWrongProgram);
    let mut accounts = w.take_accounts(w.mint_b);
    accounts.taker_ata_a.is_foreign = true;
    let outcome = take(&accounts, RECEIVE, w.now);
    assert_eq!(outcome.unwrap_err(), Error::AccountOwnedByWrongProgram);
    // An escrow is no mint.
    let mut accounts = w.update_accounts(w.maker);
    accounts.mint_b = w.mint_slot(w.escrow);
    assert_eq!(check_update(&accounts, 1), Err(Error::AccountOwnedByWrongProgram));
}

#[test]
fn what_is_at_an_address_goes_by_its_owner() {
    let system = Address { bytes: SYSTEM_PROGRAM };
    let token = Address { bytes: TOKEN_PROGRAM };
    let token_2022 = Address { bytes: TOKEN_2022_PROGRAM };
    let program = Address { bytes: ID };
    assert_eq!(pubkey(&system), anchor_lang::system_program::ID);

    assert_eq!(token_standing(&system, 0, false), Standing::Vacant);
    assert_eq!(token_standing(&system, 1, false), Standing::Foreign);
    assert_eq!(token_standing(&system, 1, true), Standing::Vacant);
    assert_eq!(token_standing(&token, 0, false), Standing::Own);
    assert_eq!(token_standing(&token_2022, 1, true), Standing::Own);
    assert_eq!(token_standing(&program, 1, true), Standing::Foreign);

    assert_eq!(escrow_standing(&system, 0, false), Standing::Vacant);
    assert_eq!(escrow_standing(&system, 1, false), Standing::Foreign);
    assert_eq!(escrow_standing(&system, 1, true), Standing::Vacant);
    assert_eq!(escrow_standing(&program, 1, false), Standing::Own);
    assert_eq!(escrow_standing(&token, 1, true), Standing::Foreign);
}

#[test]
fn accounts_of_no_token_program_are_rejected() {
    let mut w = World::new();
    w.make().unwrap();
    let mut a = w.update_accounts(w.maker);
    a.mint_b.data = Some(Mint { decimals: 9, token_program: unique() });
    assert_eq!(update(&a, 1, w.now).unwrap_err(), Error::AccountOwnedByWrongProgram);
    let mut a = w.take_accounts(w.mint_b);
    a.vault.data.as_mut().unwrap().token_program = unique();
    assert_eq!(take(&a, RECEIVE, w.now).unwrap_err(), Error::AccountOwnedByWrongProgram);
    let mut a = w.take_accounts(w.mint_b);
    a.token_program = unique();
    assert_eq!(take(&a, RECEIVE, w.now).unwrap_err(), Error::InvalidProgramId);
    let mut a = w.update_accounts(w.maker);
    a.mint_b.data = None;
    assert_eq!(update(&a, 1, w.now).unwrap_err(), Error::AccountNotInitialized);
}

#[test]
fn mints_and_accounts_of_the_other_token_program_are_rejected() {
    let mut w = World::new();
    w.make().unwrap();
    let other = Address { bytes: TOKEN_2022_PROGRAM };
    let mut a = w.update_accounts(w.maker);
    a.token_program = other;
    assert_eq!(update(&a, 1, w.now).unwrap_err(), Error::ConstraintMintTokenProgram);
    let mut a = w.take_accounts(w.mint_b);
    a.vault.data.as_mut().unwrap().token_program = other;
    assert_eq!(
        take(&a, RECEIVE, w.now).unwrap_err(),
        Error::ConstraintAssociatedTokenTokenProgram
    );
}

#[test]
fn read_only_accounts_are_rejected() {
    let mut w = World::new();
    w.make().unwrap();
    let mut a = w.update_accounts(w.maker);
    a.escrow.is_writable = false;
    assert_eq!(update(&a, 1, w.now).unwrap_err(), Error::ConstraintMut);
    let mut a = w.take_accounts(w.mint_b);
    a.vault.is_writable = false;
    assert_eq!(take(&a, RECEIVE, w.now).unwrap_err(), Error::ConstraintMut);
    let mut a = w.refund_accounts(w.maker);
    a.maker_ata_a.is_writable = false;
    assert_eq!(refund(&a).unwrap_err(), Error::ConstraintMut);
}

#[test]
fn an_escrow_out_of_place_is_rejected() {
    let mut w = World::new();
    w.make().unwrap();
    let mut a = w.update_accounts(w.maker);
    a.escrow.key = unique();
    assert_eq!(update(&a, 1, w.now).unwrap_err(), Error::ConstraintSeeds);
    let mut a = w.refund_accounts(w.maker);
    a.escrow.data.as_mut().unwrap().seed = SEED + 1;
    assert_eq!(refund(&a).unwrap_err(), Error::ConstraintSeeds);
    let w = World::new();
    let outcome = make(&w.make_accounts(), SEED + 1, RECEIVE, DEPOSIT, w.deadline, w.now);
    assert_eq!(outcome.unwrap_err(), Error::ConstraintSeeds);
}

#[test]
fn token_accounts_of_others_are_rejected() {
    let mut w = World::new();
    w.make().unwrap();
    let mut a = w.take_accounts(w.mint_b);
    a.vault.data.as_mut().unwrap().mint = w.mint_b;
    assert_eq!(take(&a, RECEIVE, w.now).unwrap_err(), Error::ConstraintTokenMint);
    let mut a = w.take_accounts(w.mint_b);
    a.taker_ata_b.data.as_mut().unwrap().owner = w.maker;
    assert_eq!(take(&a, RECEIVE, w.now).unwrap_err(), Error::ConstraintTokenOwner);
    let mut a = w.take_accounts(w.mint_b);
    a.taker_ata_b.key = unique();
    assert_eq!(take(&a, RECEIVE, w.now).unwrap_err(), Error::ConstraintAssociated);
    let mut a = w.take_accounts(w.mint_b);
    a.taker_ata_a.key = unique();
    assert_eq!(take(&a, RECEIVE, w.now).unwrap_err(), Error::InvalidSeeds);
    let mut a = w.refund_accounts(w.maker);
    a.maker_ata_a.key = unique();
    assert_eq!(refund(&a).unwrap_err(), Error::AccountNotAssociatedTokenAccount);
}

#[test]
fn an_offer_is_not_made_over_another() {
    let mut w = World::new();
    w.make().unwrap();
    assert_failed_with(w.make(), "AccountAlreadyInUse");
    let mut w = World::new();
    w.write_token_account(w.mint_a, w.escrow, 0);
    assert_failed_with(w.make(), "IllegalOwner");
    let w = World::new();
    let mut a = w.make_accounts();
    a.vault.key = unique();
    assert_eq!(
        make(&a, SEED, RECEIVE, DEPOSIT, w.deadline, w.now).unwrap_err(),
        Error::InvalidSeeds
    );
}

#[test]
fn an_escrow_that_names_itself_as_maker_is_out_of_place() {
    let mut w = World::new();
    w.make().unwrap();
    let mut a = w.refund_accounts(w.escrow);
    a.escrow.data.as_mut().unwrap().maker = w.escrow;
    // Seeds that hold an address do not derive that address.
    assert_eq!(refund(&a).unwrap_err(), Error::ConstraintSeeds);
}

#[test]
fn the_mint_of_the_deposit_and_the_maker_are_pinned() {
    let mut w = World::new();
    w.make().unwrap();
    let other = w.write_mint(MINT_A_DECIMALS);
    let mut a = w.refund_accounts(w.maker);
    a.mint_a = w.mint_slot(other);
    a.maker_ata_a = w.token_slot(w.ata(&w.maker, &other));
    assert_eq!(refund(&a).unwrap_err(), Error::ConstraintHasOne);
    let mut a = w.take_accounts(w.mint_b);
    a.maker = w.passive(w.taker);
    a.maker_ata_b = w.token_slot(w.taker_ata_b);
    assert_eq!(take(&a, RECEIVE, w.now).unwrap_err(), Error::ConstraintHasOne);
}

#[test]
fn the_programs_are_the_real_ones() {
    assert_eq!(TOKEN_PROGRAM, anchor_spl::token::ID.to_bytes());
    assert_eq!(TOKEN_2022_PROGRAM, anchor_spl::token_2022::ID.to_bytes());
    assert_eq!(ASSOCIATED_TOKEN_PROGRAM, anchor_spl::associated_token::ID.to_bytes());
}
