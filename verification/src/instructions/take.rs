//! A taker pays the price and gets the deposit.

use crate::accounts::{associated_fault, check_associated, check_ensured, check_escrow_in_place,
    check_token_program, ensured_fault, escrow_in_place, is_token_program, load_mint, load_token,
    mint_fault, token_fault, Account, Mint, Slot, TokenAccount, Wallet};
use crate::address::Address;
use crate::effect::{creation_effects, creation_of, CloseTokenAccount, CreateTokenAccount, Effect,
    TransferChecked};
use crate::error::{Error, EscrowError};
use crate::state::EscrowState;
use vstd::prelude::*;

verus! {

/// The accounts that `take` is given.
#[derive(Debug)]
pub struct TakeAccounts {
    pub taker: Wallet,
    pub maker: Wallet,
    pub mint_a: Slot<Mint>,
    pub mint_b: Slot<Mint>,
    pub taker_ata_a: Slot<TokenAccount>,
    pub taker_ata_b: Slot<TokenAccount>,
    pub maker_ata_b: Slot<TokenAccount>,
    pub escrow: Slot<EscrowState>,
    pub vault: Slot<TokenAccount>,
    pub token_program: Address,
}

/// The accounts of a `take`, once the demands on them are met. The two token
/// accounts that receive may still have to be created.
#[derive(Debug)]
pub struct Take {
    pub taker: Address,
    pub maker: Address,
    pub mint_a: Account<Mint>,
    pub mint_b: Account<Mint>,
    pub taker_ata_a: Slot<TokenAccount>,
    pub taker_ata_b: Account<TokenAccount>,
    pub maker_ata_b: Slot<TokenAccount>,
    pub escrow: Account<EscrowState>,
    pub vault: Account<TokenAccount>,
    pub token_program: Address,
}

impl TakeAccounts {
    /// The first demand on the accounts that is not met.
    pub open spec fn fault(self) -> Option<Error> {
        if !self.taker.is_signer {
            Some(Error::AccountNotSigner)
        } else if mint_fault(self.mint_a) is Some {
            mint_fault(self.mint_a)
        } else if mint_fault(self.mint_b) is Some {
            mint_fault(self.mint_b)
        } else if token_fault(self.taker_ata_b) is Some {
            token_fault(self.taker_ata_b)
        } else if self.escrow.data is None {
            Some(self.escrow.absence())
        } else if token_fault(self.vault) is Some {
            token_fault(self.vault)
        } else if !is_token_program(self.token_program) {
            Some(Error::InvalidProgramId)
        } else if self.mint_a.data->0.token_program != self.token_program {
            Some(Error::ConstraintMintTokenProgram)
        } else if self.mint_b.data->0.token_program != self.token_program {
            Some(Error::ConstraintMintTokenProgram)
        } else if self.taker_a_fault() is Some {
            self.taker_a_fault()
        } else if !self.taker_ata_a.is_writable {
            Some(Error::ConstraintMut)
        } else if self.maker_b_fault() is Some {
            self.maker_b_fault()
        } else if !self.maker_ata_b.is_writable {
            Some(Error::ConstraintMut)
        } else if !self.taker.is_writable {
            Some(Error::ConstraintMut)
        } else if !self.maker.is_writable {
            Some(Error::ConstraintMut)
        } else if self.taker_b_fault() is Some {
            self.taker_b_fault()
        } else if !self.taker_ata_b.is_writable {
            Some(Error::ConstraintMut)
        } else if !escrow_in_place(self.escrow.key, self.escrow.data->0) {
            Some(Error::ConstraintSeeds)
        } else if !self.escrow.is_writable {
            Some(Error::ConstraintMut)
        } else if self.escrow.data->0.maker != self.maker.key {
            Some(Error::ConstraintHasOne)
        } else if self.escrow.data->0.mint_a != self.mint_a.key {
            Some(Error::ConstraintHasOne)
        } else if self.escrow.data->0.mint_b != self.mint_b.key {
            Some(Error::ConstraintHasOne)
        } else if self.escrow.key == self.maker.key {
            Some(Error::ConstraintClose)
        } else if self.vault_fault() is Some {
            self.vault_fault()
        } else if !self.vault.is_writable {
            Some(Error::ConstraintMut)
        } else {
            None
        }
    }

    /// What is wrong with the account that the deposit goes to.
    pub open spec fn taker_a_fault(self) -> Option<Error> {
        ensured_fault(self.taker_ata_a, self.taker.key, self.mint_a.key, self.token_program)
    }

    /// What is wrong with the account that the price goes to.
    pub open spec fn maker_b_fault(self) -> Option<Error> {
        ensured_fault(self.maker_ata_b, self.maker.key, self.mint_b.key, self.token_program)
    }

    /// What is wrong with the account that the price comes from.
    pub open spec fn taker_b_fault(self) -> Option<Error> {
        associated_fault(
            self.taker_ata_b.key,
            self.taker_ata_b.data->0,
            self.taker.key,
            self.mint_b.key,
            self.token_program,
            Error::ConstraintAssociated,
        )
    }

    /// What is wrong with the vault.
    pub open spec fn vault_fault(self) -> Option<Error> {
        associated_fault(
            self.vault.key,
            self.vault.data->0,
            self.escrow.key,
            self.mint_a.key,
            self.token_program,
            Error::ConstraintAssociated,
        )
    }

    /// The accounts, once the demands on them are met.
    pub open spec fn accepted(self) -> Take {
        Take {
            taker: self.taker.key,
            maker: self.maker.key,
            mint_a: self.mint_a.account(),
            mint_b: self.mint_b.account(),
            taker_ata_a: self.taker_ata_a,
            taker_ata_b: self.taker_ata_b.account(),
            maker_ata_b: self.maker_ata_b,
            escrow: self.escrow.account(),
            vault: self.vault.account(),
            token_program: self.token_program,
        }
    }
}

impl Take {
    /// What is wrong with paying `expected_transfer` for the offer at `now`.
    pub open spec fn transfer_fault(self, expected_transfer: u64, now: i64) -> Option<Error> {
        if !self.escrow.data.live(now) {
            Some(Error::Escrow(EscrowError::EscrowExpired))
        } else if expected_transfer != self.escrow.data.receive {
            Some(Error::Escrow(EscrowError::TermsChanged))
        } else {
            None
        }
    }

    /// The transfer of the price from the taker to the maker.
    pub open spec fn payment(self) -> TransferChecked {
        TransferChecked {
            from: self.taker_ata_b.key,
            mint: self.mint_b.key,
            to: self.maker_ata_b.key,
            authority: self.taker,
            amount: self.escrow.data.receive,
            decimals: self.mint_b.data.decimals,
            token_program: self.token_program,
        }
    }

    /// The transfer of all that is in the vault to the taker.
    pub open spec fn withdrawal(self) -> TransferChecked {
        TransferChecked {
            from: self.vault.key,
            mint: self.mint_a.key,
            to: self.taker_ata_a.key,
            authority: self.escrow.key,
            amount: self.vault.data.amount,
            decimals: self.mint_a.data.decimals,
            token_program: self.token_program,
        }
    }

    /// The closing of the vault, its rent to the maker.
    pub open spec fn vault_closing(self) -> CloseTokenAccount {
        CloseTokenAccount {
            address: self.vault.key,
            authority: self.escrow.key,
            token_program: self.token_program,
            destination: self.maker,
        }
    }

    /// The creation of the account that the deposit goes to, if there is none,
    /// at the taker's expense.
    pub open spec fn creation_a(self) -> Option<CreateTokenAccount> {
        creation_of(self.taker_ata_a, self.taker, self.mint_a.key, self.token_program, self.taker)
    }

    /// The creation of the account that the price goes to, if there is none, at
    /// the taker's expense.
    pub open spec fn creation_b(self) -> Option<CreateTokenAccount> {
        creation_of(self.maker_ata_b, self.maker, self.mint_b.key, self.token_program, self.taker)
    }

    /// All that taking the offer does after those creations.
    pub open spec fn swap(self) -> Seq<Effect> {
        seq![
            Effect::TransferChecked(self.payment()),
            Effect::TransferChecked(self.withdrawal()),
            Effect::CloseTokenAccount(self.vault_closing()),
            Effect::CloseEscrow { address: self.escrow.key, destination: self.maker },
        ]
    }

    /// All that taking the offer does.
    pub open spec fn effects(self) -> Seq<Effect> {
        creation_effects(self.creation_a()) + creation_effects(self.creation_b()) + self.swap()
    }

    /// Holds the accounts to the demands on them.
    pub fn try_accounts(accounts: &TakeAccounts) -> (r: Result<Take, Error>)
        ensures
            match r {
                Ok(valid) => accounts.fault() is None && valid == accounts.accepted(),
                Err(e) => accounts.fault() == Some(e),
            },
    {
        if !accounts.taker.is_signer {
            return Err(Error::AccountNotSigner);
        }
        let mint_a = match load_mint(&accounts.mint_a) {
            Ok(mint) => mint,
            Err(e) => return Err(e),
        };
        let mint_b = match load_mint(&accounts.mint_b) {
            Ok(mint) => mint,
            Err(e) => return Err(e),
        };
        let taker_ata_b = match load_token(&accounts.taker_ata_b) {
            Ok(token) => token,
            Err(e) => return Err(e),
        };
        let state = match accounts.escrow.data {
            Some(state) => state,
            None => return Err(accounts.escrow.absence_error()),
        };
        let vault = match load_token(&accounts.vault) {
            Ok(token) => token,
            Err(e) => return Err(e),
        };
        if !check_token_program(&accounts.token_program) {
            return Err(Error::InvalidProgramId);
        }
        if mint_a.data.token_program != accounts.token_program {
            return Err(Error::ConstraintMintTokenProgram);
        }
        if mint_b.data.token_program != accounts.token_program {
            return Err(Error::ConstraintMintTokenProgram);
        }
        if let Some(e) = check_ensured(
            &accounts.taker_ata_a,
            &accounts.taker.key,
            &mint_a.key,
            &accounts.token_program,
        ) {
            return Err(e);
        }
        if !accounts.taker_ata_a.is_writable {
            return Err(Error::ConstraintMut);
        }
        if let Some(e) = check_ensured(
            &accounts.maker_ata_b,
            &accounts.maker.key,
            &mint_b.key,
            &accounts.token_program,
        ) {
            return Err(e);
        }
        if !accounts.maker_ata_b.is_writable {
            return Err(Error::ConstraintMut);
        }
        if !accounts.taker.is_writable || !accounts.maker.is_writable {
            return Err(Error::ConstraintMut);
        }
        if let Some(e) = check_associated(
            &taker_ata_b,
            &accounts.taker.key,
            &mint_b.key,
            &accounts.token_program,
            Error::ConstraintAssociated,
        ) {
            return Err(e);
        }
        if !accounts.taker_ata_b.is_writable {
            return Err(Error::ConstraintMut);
        }
        if !check_escrow_in_place(&accounts.escrow.key, &state) {
            return Err(Error::ConstraintSeeds);
        }
        if !accounts.escrow.is_writable {
            return Err(Error::ConstraintMut);
        }
        if state.maker != accounts.maker.key {
            return Err(Error::ConstraintHasOne);
        }
        if state.mint_a != mint_a.key {
            return Err(Error::ConstraintHasOne);
        }
        if state.mint_b != mint_b.key {
            return Err(Error::ConstraintHasOne);
        }
        if accounts.escrow.key == accounts.maker.key {
            return Err(Error::ConstraintClose);
        }
        if let Some(e) = check_associated(
            &vault,
            &accounts.escrow.key,
            &mint_a.key,
            &accounts.token_program,
            Error::ConstraintAssociated,
        ) {
            return Err(e);
        }
        if !accounts.vault.is_writable {
            return Err(Error::ConstraintMut);
        }
        Ok(
            Take {
                taker: accounts.taker.key,
                maker: accounts.maker.key,
                mint_a,
                mint_b,
                taker_ata_a: Slot {
                    key: accounts.taker_ata_a.key,
                    is_writable: accounts.taker_ata_a.is_writable,
                    is_foreign: accounts.taker_ata_a.is_foreign,
                    data: accounts.taker_ata_a.data,
                },
                taker_ata_b,
                maker_ata_b: Slot {
                    key: accounts.maker_ata_b.key,
                    is_writable: accounts.maker_ata_b.is_writable,
                    is_foreign: accounts.maker_ata_b.is_foreign,
                    data: accounts.maker_ata_b.data,
                },
                escrow: Account { key: accounts.escrow.key, data: state },
                vault,
                token_program: accounts.token_program,
            },
        )
    }

    /// The transfer of the price from the taker to the maker, if the offer is
    /// live and still asks what the taker expects to pay.
    pub fn transfer(&self, expected_transfer: u64, now: i64) -> (r: Result<TransferChecked, Error>)
        ensures
            match r {
                Ok(payment) => {
                    &&& self.transfer_fault(expected_transfer, now) is None
                    &&& payment == self.payment()
                    &&& payment.amount == expected_transfer
                },
                Err(e) => self.transfer_fault(expected_transfer, now) == Some(e),
            },
    {
        if !self.escrow.data.is_live(now) {
            return Err(Error::Escrow(EscrowError::EscrowExpired));
        }
        if expected_transfer != self.escrow.data.receive {
            return Err(Error::Escrow(EscrowError::TermsChanged));
        }
        Ok(
            TransferChecked {
                from: self.taker_ata_b.key,
                mint: self.mint_b.key,
                to: self.maker_ata_b.key,
                authority: self.taker,
                amount: self.escrow.data.receive,
                decimals: self.mint_b.data.decimals,
                token_program: self.token_program,
            },
        )
    }

    /// The transfer of all that is in the vault to the taker.
    pub fn withdraw(&self) -> (r: TransferChecked)
        ensures
            r == self.withdrawal(),
    {
        TransferChecked {
            from: self.vault.key,
            mint: self.mint_a.key,
            to: self.taker_ata_a.key,
            authority: self.escrow.key,
            amount: self.vault.data.amount,
            decimals: self.mint_a.data.decimals,
            token_program: self.token_program,
        }
    }

    /// The closing of the vault, its rent to the maker.
    pub fn close(&self) -> (r: CloseTokenAccount)
        ensures
            r == self.vault_closing(),
    {
        CloseTokenAccount {
            address: self.vault.key,
            authority: self.escrow.key,
            token_program: self.token_program,
            destination: self.maker,
        }
    }
}

} // verus!
