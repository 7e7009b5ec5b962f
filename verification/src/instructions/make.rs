//! The maker opens an offer.

use crate::accounts::{associated_fault, check_address, check_associated, check_escrow_address,
    check_token_program, is_token_program, load_mint, load_token, mint_fault, token_fault, Account,
    Mint, Slot, TokenAccount, Wallet};
use crate::address::{escrow_bump, is_associated, is_escrow, Address};
use crate::effect::{CreateTokenAccount, Effect, TransferChecked};
use crate::error::{Error, EscrowError};
use crate::state::EscrowState;
use vstd::prelude::*;

verus! {

/// The accounts that `make` is given.
#[derive(Debug)]
pub struct MakeAccounts {
    pub maker: Wallet,
    pub mint_a: Slot<Mint>,
    pub mint_b: Slot<Mint>,
    pub maker_ata_a: Slot<TokenAccount>,
    pub escrow: Slot<EscrowState>,
    pub vault: Slot<TokenAccount>,
    pub token_program: Address,
}

/// The accounts of a `make`, once the demands on them are met. Neither the
/// escrow nor its vault exists yet.
#[derive(Debug)]
pub struct Make {
    pub maker: Address,
    pub mint_a: Account<Mint>,
    pub mint_b: Account<Mint>,
    pub maker_ata_a: Account<TokenAccount>,
    pub escrow: Address,
    pub vault: Address,
    pub token_program: Address,
}

impl MakeAccounts {
    /// The first demand on the accounts of an offer with `seed` that is not met.
    pub open spec fn fault(self, seed: u64) -> Option<Error> {
        if !self.maker.is_signer {
            Some(Error::AccountNotSigner)
        } else if mint_fault(self.mint_a) is Some {
            mint_fault(self.mint_a)
        } else if mint_fault(self.mint_b) is Some {
            mint_fault(self.mint_b)
        } else if token_fault(self.maker_ata_a) is Some {
            token_fault(self.maker_ata_a)
        } else if !is_token_program(self.token_program) {
            Some(Error::InvalidProgramId)
        } else if self.mint_a.data->0.token_program != self.token_program {
            Some(Error::ConstraintMintTokenProgram)
        } else if self.mint_b.data->0.token_program != self.token_program {
            Some(Error::ConstraintMintTokenProgram)
        } else if !is_escrow(self.maker.key, seed, self.escrow.key) {
            Some(Error::ConstraintSeeds)
        } else if !self.escrow.vacant() {
            Some(Error::AccountAlreadyInUse)
        } else if !self.escrow.is_writable {
            Some(Error::ConstraintMut)
        } else if !is_associated(
            self.escrow.key,
            self.mint_a.key,
            self.token_program,
            self.vault.key,
        ) {
            Some(Error::InvalidSeeds)
        } else if !self.vault.vacant() {
            Some(Error::IllegalOwner)
        } else if !self.vault.is_writable {
            Some(Error::ConstraintMut)
        } else if !self.maker.is_writable {
            Some(Error::ConstraintMut)
        } else if self.maker_fault() is Some {
            self.maker_fault()
        } else if !self.maker_ata_a.is_writable {
            Some(Error::ConstraintMut)
        } else {
            None
        }
    }

    /// What is wrong with the account that the deposit comes from.
    pub open spec fn maker_fault(self) -> Option<Error> {
        associated_fault(
            self.maker_ata_a.key,
            self.maker_ata_a.data->0,
            self.maker.key,
            self.mint_a.key,
            self.token_program,
            Error::ConstraintAssociated,
        )
    }

    /// The accounts, once the demands on them are met.
    pub open spec fn accepted(self) -> Make {
        Make {
            maker: self.maker.key,
            mint_a: self.mint_a.account(),
            mint_b: self.mint_b.account(),
            maker_ata_a: self.maker_ata_a.account(),
            escrow: self.escrow.key,
            vault: self.vault.key,
            token_program: self.token_program,
        }
    }
}

impl Make {
    /// What is wrong with an offer that asks `receive` until `deadline`.
    pub open spec fn terms_fault(receive: u64, deadline: i64, now: i64) -> Option<Error> {
        if receive == 0 {
            Some(Error::RequireGtViolated)
        } else if deadline <= now {
            Some(Error::Escrow(EscrowError::DeadlineInPast))
        } else {
            None
        }
    }

    /// The terms that are recorded.
    pub open spec fn terms(
        self,
        seed: u64,
        receive: u64,
        deadline: i64,
        bump: u8,
    ) -> EscrowState {
        EscrowState {
            seed,
            maker: self.maker,
            mint_a: self.mint_a.key,
            mint_b: self.mint_b.key,
            receive,
            deadline,
            bump,
        }
    }

    /// The transfer of the deposit into the vault.
    pub open spec fn deposit_transfer(self, amount: u64) -> TransferChecked {
        TransferChecked {
            from: self.maker_ata_a.key,
            mint: self.mint_a.key,
            to: self.vault,
            authority: self.maker,
            amount,
            decimals: self.mint_a.data.decimals,
            token_program: self.token_program,
        }
    }

    /// The creation of the vault, at the maker's expense.
    pub open spec fn vault_creation(self) -> CreateTokenAccount {
        CreateTokenAccount {
            address: self.vault,
            mint: self.mint_a.key,
            owner: self.escrow,
            token_program: self.token_program,
            payer: self.maker,
        }
    }

    /// All that opening the offer does.
    pub open spec fn effects(self, state: EscrowState, deposit: u64) -> Seq<Effect> {
        seq![
            Effect::CreateEscrow { address: self.escrow, state, payer: self.maker },
            Effect::CreateTokenAccount(self.vault_creation()),
            Effect::TransferChecked(self.deposit_transfer(deposit)),
        ]
    }

    /// Holds the accounts to the demands on them, and gives the canonical bump
    /// of the escrow's address.
    pub fn try_accounts(accounts: &MakeAccounts, seed: u64) -> (r: Result<(Make, u8), Error>)
        ensures
            match r {
                Ok((valid, bump)) => {
                    &&& accounts.fault(seed) is None
                    &&& valid == accounts.accepted()
                    &&& bump == escrow_bump(accounts.maker.key, seed, accounts.escrow.key)
                },
                Err(e) => accounts.fault(seed) == Some(e),
            },
    {
        if !accounts.maker.is_signer {
            return Err(Error::AccountNotSigner);
        }
        let mint_a = match load_mint(&accounts.mint_a) {
            Ok(mint) => mint,
            Err(e) => return Err(e),
        };
        let mint_b = match load_mint(&accounts.mint_b) {
            Ok(mint) => mint,
            Err(e) => return Err(e),
        };
        let maker_ata_a = match load_token(&accounts.maker_ata_a) {
            Ok(token) => token,
            Err(e) => return Err(e),
        };
        if !check_token_program(&accounts.token_program) {
            return Err(Error::InvalidProgramId);
        }
        if mint_a.data.token_program != accounts.token_program {
            return Err(Error::ConstraintMintTokenProgram);
        }
        if mint_b.data.token_program != accounts.token_program {
            return Err(Error::ConstraintMintTokenProgram);
        }
        let bump: u8 = match check_escrow_address(
            &accounts.escrow.key,
            &accounts.maker.key,
            seed,
        ) {
            Some(bump) => bump,
            None => return Err(Error::ConstraintSeeds),
        };
        if !accounts.escrow.is_vacant() {
            return Err(Error::AccountAlreadyInUse);
        }
        if !accounts.escrow.is_writable {
            return Err(Error::ConstraintMut);
        }
        if !check_address(
            &accounts.vault.key,
            &accounts.escrow.key,
            &mint_a.key,
            &accounts.token_program,
        ) {
            return Err(Error::InvalidSeeds);
        }
        if !accounts.vault.is_vacant() {
            return Err(Error::IllegalOwner);
        }
        if !accounts.vault.is_writable {
            return Err(Error::ConstraintMut);
        }
        if !accounts.maker.is_writable {
            return Err(Error::ConstraintMut);
        }
        if let Some(e) = check_associated(
            &maker_ata_a,
            &accounts.maker.key,
            &mint_a.key,
            &accounts.token_program,
            Error::ConstraintAssociated,
        ) {
            return Err(e);
        }
        if !accounts.maker_ata_a.is_writable {
            return Err(Error::ConstraintMut);
        }
        Ok(
            (
                Make {
                    maker: accounts.maker.key,
                    mint_a,
                    mint_b,
                    maker_ata_a,
                    escrow: accounts.escrow.key,
                    vault: accounts.vault.key,
                    token_program: accounts.token_program,
                },
                bump,
            ),
        )
    }

    /// The terms to record, unless they ask for nothing or are dead already.
    pub fn init_escrow(
        &self,
        seed: u64,
        receive: u64,
        deadline: i64,
        bump: u8,
        now: i64,
    ) -> (r: Result<EscrowState, Error>)
        ensures
            match r {
                Ok(state) => {
                    &&& Make::terms_fault(receive, deadline, now) is None
                    &&& state == self.terms(seed, receive, deadline, bump)
                },
                Err(e) => Make::terms_fault(receive, deadline, now) == Some(e),
            },
    {
        if receive == 0 {
            return Err(Error::RequireGtViolated);
        }
        if deadline <= now {
            return Err(Error::Escrow(EscrowError::DeadlineInPast));
        }
        Ok(
            EscrowState {
                seed,
                maker: self.maker,
                mint_a: self.mint_a.key,
                mint_b: self.mint_b.key,
                receive,
                deadline,
                bump,
            },
        )
    }

    /// The transfer of the deposit into the vault.
    pub fn deposit(&self, amount: u64) -> (r: TransferChecked)
        ensures
            r == self.deposit_transfer(amount),
    {
        TransferChecked {
            from: self.maker_ata_a.key,
            mint: self.mint_a.key,
            to: self.vault,
            authority: self.maker,
            amount,
            decimals: self.mint_a.data.decimals,
            token_program: self.token_program,
        }
    }

    /// The creation of the vault, at the maker's expense.
    pub fn create_vault(&self) -> (r: CreateTokenAccount)
        ensures
            r == self.vault_creation(),
    {
        CreateTokenAccount {
            address: self.vault,
            mint: self.mint_a.key,
            owner: self.escrow,
            token_program: self.token_program,
            payer: self.maker,
        }
    }
}

} // verus!
