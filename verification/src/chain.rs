//! What the effects of an instruction come to.
//!
//! A `Chain` is the part of the ledger that the escrow touches. It is a
//! specification only: the contracts of the instructions say which effects
//! they return, and this says what those effects mean, for mints that charge no
//! fee on a transfer and accounts that nobody has frozen.

use crate::accounts::{Mint, Slot, TokenAccount};
use crate::address::Address;
use crate::effect::{CloseTokenAccount, Effect, TransferChecked};
use crate::instructions::make::MakeAccounts;
use crate::instructions::refund::RefundAccounts;
use crate::instructions::take::TakeAccounts;
use crate::instructions::update::UpdateAccounts;
use crate::state::EscrowState;
use crate::{make_effects, make_fault, take_fault, update_effects, update_fault};
use vstd::prelude::*;

verus! {

/// The escrows, the token accounts, the mints, the addresses of the accounts of
/// other programs, and the lamports at every address.
#[verifier::ext_equal]
pub struct Chain {
    pub escrows: Map<Address, EscrowState>,
    pub tokens: Map<Address, TokenAccount>,
    pub mints: Map<Address, Mint>,
    pub others: Set<Address>,
    pub lamports: Map<Address, nat>,
}

/// The lamports that the runtime wants at an address for an account to live there.
pub type Rent = spec_fn(Address) -> nat;

impl Chain {
    /// The escrow at `key`, if there is one.
    pub open spec fn escrow(self, key: Address) -> Option<EscrowState> {
        if self.escrows.dom().contains(key) {
            Some(self.escrows[key])
        } else {
            None
        }
    }

    /// The token account at `key`, if there is one.
    pub open spec fn token(self, key: Address) -> Option<TokenAccount> {
        if self.tokens.dom().contains(key) {
            Some(self.tokens[key])
        } else {
            None
        }
    }

    /// The mint at `key`, if there is one.
    pub open spec fn mint(self, key: Address) -> Option<Mint> {
        if self.mints.dom().contains(key) {
            Some(self.mints[key])
        } else {
            None
        }
    }

    /// The tokens in the account at `key`: none if there is no account.
    pub open spec fn amount(self, key: Address) -> int {
        match self.token(key) {
            Some(t) => t.amount as int,
            None => 0,
        }
    }

    /// Whether there is an account at `key`, of whatever kind. Lamports alone make
    /// none.
    pub open spec fn occupied(self, key: Address) -> bool {
        ||| self.escrows.dom().contains(key)
        ||| self.tokens.dom().contains(key)
        ||| self.mints.dom().contains(key)
        ||| self.others.contains(key)
    }

    /// The lamports at `key`.
    pub open spec fn lamports_at(self, key: Address) -> nat {
        if self.lamports.dom().contains(key) {
            self.lamports[key]
        } else {
            0
        }
    }

    /// What is missing at `key` for an account to live there.
    pub open spec fn due(self, key: Address, rent: Rent) -> nat {
        if rent(key) > self.lamports_at(key) {
            (rent(key) - self.lamports_at(key)) as nat
        } else {
            0
        }
    }

    /// Whether `payer` can pay for an account at `key`.
    pub open spec fn can_fund(self, payer: Address, key: Address, rent: Rent) -> bool {
        payer != key && self.lamports_at(payer) >= self.due(key, rent)
    }

    /// The lamports once `payer` has paid for an account at `key`.
    pub open spec fn funded(self, payer: Address, key: Address, rent: Rent) -> Map<Address, nat> {
        let due = self.due(key, rent);
        self.lamports.insert(payer, (self.lamports_at(payer) - due) as nat).insert(
            key,
            self.lamports_at(key) + due,
        )
    }

    /// The lamports once those at `key` have gone to `destination`.
    pub open spec fn released(self, key: Address, destination: Address) -> Map<Address, nat> {
        self.lamports.insert(destination, self.lamports_at(destination) + self.lamports_at(key))
            .insert(key, 0)
    }

    /// Whether the token program carries out the transfer.
    pub open spec fn can_transfer(self, t: TransferChecked) -> bool {
        &&& self.tokens.dom().contains(t.from)
        &&& self.tokens.dom().contains(t.to)
        &&& self.mint(t.mint) == Some(
            Mint { decimals: t.decimals, token_program: t.token_program },
        )
        &&& self.tokens[t.from].mint == t.mint
        &&& self.tokens[t.to].mint == t.mint
        &&& self.tokens[t.from].token_program == t.token_program
        &&& self.tokens[t.to].token_program == t.token_program
        &&& self.tokens[t.from].owner == t.authority
        &&& self.tokens[t.from].amount >= t.amount
        &&& t.from != t.to ==> self.tokens[t.to].amount + t.amount <= u64::MAX
    }

    /// The token accounts after the transfer.
    pub open spec fn transferred(self, t: TransferChecked) -> Map<Address, TokenAccount> {
        if t.from == t.to {
            self.tokens
        } else {
            let from = self.tokens[t.from];
            let to = self.tokens[t.to];
            self.tokens.insert(
                t.from,
                TokenAccount { amount: (from.amount - t.amount) as u64, ..from },
            ).insert(t.to, TokenAccount { amount: (to.amount + t.amount) as u64, ..to })
        }
    }

    /// Whether the token program closes the account.
    pub open spec fn can_close(self, c: CloseTokenAccount) -> bool {
        &&& self.tokens.dom().contains(c.address)
        &&& self.tokens[c.address].amount == 0
        &&& self.tokens[c.address].owner == c.authority
        &&& self.tokens[c.address].token_program == c.token_program
        &&& c.address != c.destination
    }

    /// The chain after one effect, if the runtime carries it out.
    pub open spec fn apply(self, effect: Effect, rent: Rent) -> Option<Chain> {
        match effect {
            Effect::CreateEscrow { address, state, payer } => if self.occupied(address)
                || !self.can_fund(payer, address, rent) {
                None
            } else {
                Some(
                    Chain {
                        escrows: self.escrows.insert(address, state),
                        lamports: self.funded(payer, address, rent),
                        ..self
                    },
                )
            },
            Effect::StoreEscrow { address, state } => if !self.escrows.dom().contains(address) {
                None
            } else {
                Some(Chain { escrows: self.escrows.insert(address, state), ..self })
            },
            Effect::CloseEscrow { address, destination } => if !self.escrows.dom().contains(address)
                || address == destination {
                None
            } else {
                Some(
                    Chain {
                        escrows: self.escrows.remove(address),
                        lamports: self.released(address, destination),
                        ..self
                    },
                )
            },
            Effect::CreateTokenAccount(c) => if self.occupied(c.address)
                || !self.can_fund(c.payer, c.address, rent) {
                None
            } else {
                Some(
                    Chain {
                        tokens: self.tokens.insert(
                            c.address,
                            TokenAccount {
                                mint: c.mint,
                                owner: c.owner,
                                amount: 0,
                                token_program: c.token_program,
                            },
                        ),
                        lamports: self.funded(c.payer, c.address, rent),
                        ..self
                    },
                )
            },
            Effect::TransferChecked(t) => if !self.can_transfer(t) {
                None
            } else {
                Some(Chain { tokens: self.transferred(t), ..self })
            },
            Effect::CloseTokenAccount(c) => if !self.can_close(c) {
                None
            } else {
                Some(
                    Chain {
                        tokens: self.tokens.remove(c.address),
                        lamports: self.released(c.address, c.destination),
                        ..self
                    },
                )
            },
        }
    }

    /// The chain after all of the effects in turn, if the runtime carries out
    /// every one of them.
    pub open spec fn run(self, effects: Seq<Effect>, rent: Rent) -> Option<Chain>
        decreases effects.len(),
    {
        if effects.len() == 0 {
            Some(self)
        } else {
            match self.apply(effects[0], rent) {
                Some(next) => next.run(effects.drop_first(), rent),
                None => None,
            }
        }
    }

    /// Whether the slot shows the mint at its address, if there is one.
    pub open spec fn shows_mint(self, slot: Slot<Mint>) -> bool {
        &&& slot.data == self.mint(slot.key)
        &&& slot.is_foreign == (slot.data is None && self.occupied(slot.key))
    }

    /// Whether the slot shows the token account at its address, if there is one.
    pub open spec fn shows_token(self, slot: Slot<TokenAccount>) -> bool {
        &&& slot.data == self.token(slot.key)
        &&& slot.is_foreign == (slot.data is None && self.occupied(slot.key))
    }

    /// Whether the slot shows the escrow at its address, if there is one.
    pub open spec fn shows_escrow(self, slot: Slot<EscrowState>) -> bool {
        &&& slot.data == self.escrow(slot.key)
        &&& slot.is_foreign == (slot.data is None && self.occupied(slot.key))
    }

    /// Whether the accounts are passed to `make` as they are on the chain.
    pub open spec fn shows_make(self, a: MakeAccounts) -> bool {
        &&& self.shows_mint(a.mint_a)
        &&& self.shows_mint(a.mint_b)
        &&& self.shows_token(a.maker_ata_a)
        &&& self.shows_escrow(a.escrow)
        &&& self.shows_token(a.vault)
    }

    /// Whether the accounts are passed to `take` as they are on the chain.
    pub open spec fn shows_take(self, a: TakeAccounts) -> bool {
        &&& self.shows_mint(a.mint_a)
        &&& self.shows_mint(a.mint_b)
        &&& self.shows_token(a.taker_ata_a)
        &&& self.shows_token(a.taker_ata_b)
        &&& self.shows_token(a.maker_ata_b)
        &&& self.shows_escrow(a.escrow)
        &&& self.shows_token(a.vault)
    }

    /// Whether the accounts are passed to `refund` as they are on the chain.
    pub open spec fn shows_refund(self, a: RefundAccounts) -> bool {
        &&& self.shows_token(a.maker_ata_a)
        &&& self.shows_mint(a.mint_a)
        &&& self.shows_escrow(a.escrow)
        &&& self.shows_token(a.vault)
    }

    /// Whether the accounts are passed to `update` as they are on the chain.
    pub open spec fn shows_update(self, a: UpdateAccounts) -> bool {
        &&& self.shows_mint(a.mint_b)
        &&& self.shows_escrow(a.escrow)
    }

    /// The chain after a `make`, if it goes through.
    pub open spec fn after_make(
        self,
        a: MakeAccounts,
        seed: u64,
        receive: u64,
        deposit: u64,
        deadline: i64,
        now: i64,
        rent: Rent,
    ) -> Option<Chain> {
        if make_fault(a, seed, receive, deadline, now) is None {
            self.run(make_effects(a, seed, receive, deposit, deadline), rent)
        } else {
            None
        }
    }

    /// The chain after a `take`, if it goes through.
    pub open spec fn after_take(
        self,
        a: TakeAccounts,
        expected_transfer: u64,
        now: i64,
        rent: Rent,
    ) -> Option<Chain> {
        if take_fault(a, expected_transfer, now) is None {
            self.run(a.accepted().effects(), rent)
        } else {
            None
        }
    }

    /// The chain after a `refund`, if it goes through.
    pub open spec fn after_refund(self, a: RefundAccounts, rent: Rent) -> Option<Chain> {
        if a.fault() is None {
            self.run(a.accepted().effects(), rent)
        } else {
            None
        }
    }

    /// The chain after an `update`, if it goes through.
    pub open spec fn after_update(
        self,
        a: UpdateAccounts,
        new_receive: u64,
        now: i64,
        rent: Rent,
    ) -> Option<Chain> {
        if update_fault(a, new_receive, now) is None {
            self.run(update_effects(a, new_receive), rent)
        } else {
            None
        }
    }
}

} // verus!
