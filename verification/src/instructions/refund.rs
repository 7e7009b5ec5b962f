//! The maker takes the deposit back.

use crate::accounts::{associated_fault, check_associated, check_ensured, check_escrow_in_place,
    check_token_program, ensured_fault, escrow_in_place, is_token_program, load_mint, load_token,
    mint_fault, token_fault, Account, Mint, Slot, TokenAccount, Wallet};
use crate::address::Address;
use crate::effect::{creation_effects, creation_of, CloseTokenAccount, CreateTokenAccount, Effect,
    TransferChecked};
use crate::error::Error;
use crate::state::EscrowState;
use vstd::prelude::*;

verus! {

/// The accounts that `refund` is given.
#[derive(Debug)]
pub struct RefundAccounts {
    pub maker: Wallet,
    pub maker_ata_a: Slot<TokenAccount>,
    pub mint_a: Slot<Mint>,
    pub escrow: Slot<EscrowState>,
    pub vault: Slot<TokenAccount>,
    pub token_program: Address,
}

/// The accounts of a `refund`, once the demands on them are met. The maker's
/// token account may still have to be created.
#[derive(Debug)]
pub struct Refund {
    pub maker: Address,
    pub maker_ata_a: Slot<TokenAccount>,
    pub mint_a: Account<Mint>,
    pub escrow: Account<EscrowState>,
    pub vault: Account<TokenAccount>,
    pub token_program: Address,
}

impl RefundAccounts {
    /// The first demand on the accounts that is not met.
    pub open spec fn fault(self) -> Option<Error> {
        if !self.maker.is_signer {
            Some(Error::AccountNotSigner)
        } else if mint_fault(self.mint_a) is Some {
            mint_fault(self.mint_a)
        } else if self.escrow.data is None {
            Some(self.escrow.absence())
        } else if token_fault(self.vault) is Some {
            token_fault(self.vault)
        } else if !is_token_program(self.token_program) {
            Some(Error::InvalidProgramId)
        } else if self.mint_a.data->0.token_program != self.token_program {
            Some(Error::ConstraintMintTokenProgram)
        } else if self.maker_fault() is Some {
            self.maker_fault()
        } else if !self.maker_ata_a.is_writable {
            Some(Error::ConstraintMut)
        } else if !self.maker.is_writable {
            Some(Error::ConstraintMut)
        } else if !escrow_in_place(self.escrow.key, self.escrow.data->0) {
            Some(Error::ConstraintSeeds)
        } else if !self.escrow.is_writable {
            Some(Error::ConstraintMut)
        } else if self.escrow.data->0.maker != self.maker.key {
            Some(Error::ConstraintHasOne)
        } else if self.escrow.data->0.mint_a != self.mint_a.key {
            Some(Error::ConstraintHasOne)
        } else if self.escrow.key == self.maker.key {
            Some(Error::ConstraintClose)
        } else if self.vault_fault() is Some {
            self.vault_fault()
        } else if !self.vault.is_writable {
            Some(Error::ConstraintMut)
        } else {
            None
        }
    }

    /// What is wrong with the account that the deposit goes back to.
    pub open spec fn maker_fault(self) -> Option<Error> {
        ensured_fault(self.maker_ata_a, self.maker.key, self.mint_a.key, self.token_program)
    }

    /// What is wrong with the vault.
    pub open spec fn vault_fault(self) -> Option<Error> {
        associated_fault(
            self.vault.key,
            self.vault.data->0,
            self.escrow.key,
            self.mint_a.key,
            self.token_program,
            Error::ConstraintAssociated,
        )
    }

    /// The accounts, once the demands on them are met.
    pub open spec fn accepted(self) -> Refund {
        Refund {
            maker: self.maker.key,
            maker_ata_a: self.maker_ata_a,
            mint_a: self.mint_a.account(),
            escrow: self.escrow.account(),
            vault: self.vault.account(),
            token_program: self.token_program,
        }
    }
}

impl Refund {
    /// The transfer of all that is in the vault back to the maker.
    pub open spec fn withdrawal(self) -> TransferChecked {
        TransferChecked {
            from: self.vault.key,
            mint: self.mint_a.key,
            to: self.maker_ata_a.key,
            authority: self.escrow.key,
            amount: self.vault.data.amount,
            decimals: self.mint_a.data.decimals,
            token_program: self.token_program,
        }
    }

    /// The closing of the vault, its rent to the maker.
    pub open spec fn vault_closing(self) -> CloseTokenAccount {
        CloseTokenAccount {
            address: self.vault.key,
            authority: self.escrow.key,
            token_program: self.token_program,
            destination: self.maker,
        }
    }

    /// The creation of the maker's token account, if there is none.
    pub open spec fn creation(self) -> Option<CreateTokenAccount> {
        creation_of(self.maker_ata_a, self.maker, self.mint_a.key, self.token_program, self.maker)
    }

    /// All that the refund does, after that creation.
    pub open spec fn payout(self) -> Seq<Effect> {
        seq![
            Effect::TransferChecked(self.withdrawal()),
            Effect::CloseTokenAccount(self.vault_closing()),
            Effect::CloseEscrow { address: self.escrow.key, destination: self.maker },
        ]
    }

    /// All that the refund does.
    pub open spec fn effects(self) -> Seq<Effect> {
        creation_effects(self.creation()) + self.payout()
    }

    /// Holds the accounts to the demands on them.
    pub fn try_accounts(accounts: &RefundAccounts) -> (r: Result<Refund, Error>)
        ensures
            match r {
                Ok(valid) => accounts.fault() is None && valid == accounts.accepted(),
                Err(e) => accounts.fault() == Some(e),
            },
    {
        if !accounts.maker.is_signer {
            return Err(Error::AccountNotSigner);
        }
        let mint_a = match load_mint(&accounts.mint_a) {
            Ok(mint) => mint,
            Err(e) => return Err(e),
        };
        let state = match accounts.escrow.data {
            Some(state) => state,
            None => return Err(accounts.escrow.absence_error()),
        };
        let vault = match load_token(&accounts.vault) {
            Ok(token) => token,
            Err(e) => return Err(e),
        };
        if !check_token_program(&accounts.token_program) {
            return Err(Error::InvalidProgramId);
        }
        if mint_a.data.token_program != accounts.token_program {
            return Err(Error::ConstraintMintTokenProgram);
        }
        if let Some(e) = check_ensured(
            &accounts.maker_ata_a,
            &accounts.maker.key,
            &mint_a.key,
            &accounts.token_program,
        ) {
            return Err(e);
        }
        if !accounts.maker_ata_a.is_writable {
            return Err(Error::ConstraintMut);
        }
        if !accounts.maker.is_writable {
            return Err(Error::ConstraintMut);
        }
        if !check_escrow_in_place(&accounts.escrow.key, &state) {
            return Err(Error::ConstraintSeeds);
        }
        if !accounts.escrow.is_writable {
            return Err(Error::ConstraintMut);
        }
        if state.maker != accounts.maker.key {
            return Err(Error::ConstraintHasOne);
        }
        if state.mint_a != mint_a.key {
            return Err(Error::ConstraintHasOne);
        }
        if accounts.escrow.key == accounts.maker.key {
            return Err(Error::ConstraintClose);
        }
        if let Some(e) = check_associated(
            &vault,
            &accounts.escrow.key,
            &mint_a.key,
            &accounts.token_program,
            Error::ConstraintAssociated,
        ) {
            return Err(e);
        }
        if !accounts.vault.is_writable {
            return Err(Error::ConstraintMut);
        }
        Ok(
            Refund {
                maker: accounts.maker.key,
                maker_ata_a: Slot {
                    key: accounts.maker_ata_a.key,
                    is_writable: accounts.maker_ata_a.is_writable,
                    is_foreign: accounts.maker_ata_a.is_foreign,
                    data: accounts.maker_ata_a.data,
                },
                mint_a,
                escrow: Account { key: accounts.escrow.key, data: state },
                vault,
                token_program: accounts.token_program,
            },
        )
    }

    /// The transfer of all that is in the vault back to the maker.
    pub fn withdraw(&self) -> (r: TransferChecked)
        ensures
            r == self.withdrawal(),
    {
        TransferChecked {
            from: self.vault.key,
            mint: self.mint_a.key,
            to: self.maker_ata_a.key,
            authority: self.escrow.key,
            amount: self.vault.data.amount,
            decimals: self.mint_a.data.decimals,
            token_program: self.token_program,
        }
    }

    /// The closing of the vault, its rent to the maker.
    pub fn close(&self) -> (r: CloseTokenAccount)
        ensures
            r == self.vault_closing(),
    {
        CloseTokenAccount {
            address: self.vault.key,
            authority: self.escrow.key,
            token_program: self.token_program,
            destination: self.maker,
        }
    }
}

} // verus!
