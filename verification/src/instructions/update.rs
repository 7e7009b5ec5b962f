//! The maker reprices a live offer.

use crate::accounts::{check_escrow_in_place, check_token_program, escrow_in_place,
    is_token_program, load_mint, mint_fault, Account, Mint, Slot, Wallet};
use crate::address::Address;
use crate::error::{Error, EscrowError};
use crate::state::EscrowState;
use vstd::prelude::*;

verus! {

/// The accounts that `update` is given.
#[derive(Debug)]
pub struct UpdateAccounts {
    pub maker: Wallet,
    pub mint_b: Slot<Mint>,
    pub escrow: Slot<EscrowState>,
    pub token_program: Address,
}

/// The accounts of an `update`, once the demands on them are met.
#[derive(Debug)]
pub struct Update {
    pub maker: Address,
    pub mint_b: Account<Mint>,
    pub escrow: Account<EscrowState>,
    pub token_program: Address,
}

impl UpdateAccounts {
    /// The first demand on the accounts that is not met.
    pub open spec fn fault(self) -> Option<Error> {
        if !self.maker.is_signer {
            Some(Error::AccountNotSigner)
        } else if mint_fault(self.mint_b) is Some {
            mint_fault(self.mint_b)
        } else if self.escrow.data is None {
            Some(self.escrow.absence())
        } else if !is_token_program(self.token_program) {
            Some(Error::InvalidProgramId)
        } else if self.mint_b.data->0.token_program != self.token_program {
            Some(Error::ConstraintMintTokenProgram)
        } else if !escrow_in_place(self.escrow.key, self.escrow.data->0) {
            Some(Error::ConstraintSeeds)
        } else if !self.escrow.is_writable {
            Some(Error::ConstraintMut)
        } else if self.escrow.data->0.maker != self.maker.key {
            Some(Error::ConstraintHasOne)
        } else {
            None
        }
    }

    /// The accounts, once the demands on them are met.
    pub open spec fn accepted(self) -> Update {
        Update {
            maker: self.maker.key,
            mint_b: self.mint_b.account(),
            escrow: self.escrow.account(),
            token_program: self.token_program,
        }
    }
}

impl Update {
    /// What is wrong with repricing the offer to `new_receive` at `now`.
    pub open spec fn update_fault(self, new_receive: u64, now: i64) -> Option<Error> {
        if new_receive == 0 {
            Some(Error::RequireGtViolated)
        } else if !self.escrow.data.live(now) {
            Some(Error::Escrow(EscrowError::EscrowExpired))
        } else {
            None
        }
    }

    /// The terms after the repricing.
    pub open spec fn updated(self, new_receive: u64) -> EscrowState {
        self.escrow.data.repriced(self.mint_b.key, new_receive)
    }

    /// Holds the accounts to the demands on them.
    pub fn try_accounts(accounts: &UpdateAccounts) -> (r: Result<Update, Error>)
        ensures
            match r {
                Ok(valid) => accounts.fault() is None && valid == accounts.accepted(),
                Err(e) => accounts.fault() == Some(e),
            },
    {
        if !accounts.maker.is_signer {
            return Err(Error::AccountNotSigner);
        }
        let mint_b = match load_mint(&accounts.mint_b) {
            Ok(mint) => mint,
            Err(e) => return Err(e),
        };
        let state = match accounts.escrow.data {
            Some(state) => state,
            None => return Err(accounts.escrow.absence_error()),
        };
        if !check_token_program(&accounts.token_program) {
            return Err(Error::InvalidProgramId);
        }
        if mint_b.data.token_program != accounts.token_program {
            return Err(Error::ConstraintMintTokenProgram);
        }
        if !check_escrow_in_place(&accounts.escrow.key, &state) {
            return Err(Error::ConstraintSeeds);
        }
        if !accounts.escrow.is_writable {
            return Err(Error::ConstraintMut);
        }
        if state.maker != accounts.maker.key {
            return Err(Error::ConstraintHasOne);
        }
        Ok(
            Update {
                maker: accounts.maker.key,
                mint_b,
                escrow: Account { key: accounts.escrow.key, data: state },
                token_program: accounts.token_program,
            },
        )
    }

    /// Reprices the offer: `new_receive` of the given mint. Nothing else of the
    /// terms changes, and nothing at all if the repricing is refused.
    pub fn update(&mut self, new_receive: u64, now: i64) -> (r: Result<(), Error>)
        ensures
            match r {
                Ok(_) => {
                    &&& old(self).update_fault(new_receive, now) is None
                    &&& final(self).escrow.data == old(self).updated(new_receive)
                    &&& final(self).escrow.key == old(self).escrow.key
                    &&& final(self).maker == old(self).maker
                    &&& final(self).mint_b == old(self).mint_b
                    &&& final(self).token_program == old(self).token_program
                },
                Err(e) => {
                    &&& old(self).update_fault(new_receive, now) == Some(e)
                    &&& *final(self) == *old(self)
                },
            },
    {
        if new_receive == 0 {
            return Err(Error::RequireGtViolated);
        }
        if !self.escrow.data.is_live(now) {
            return Err(Error::Escrow(EscrowError::EscrowExpired));
        }
        self.escrow.data.mint_b = self.mint_b.key;
        self.escrow.data.receive = new_receive;
        Ok(())
    }
}

} // verus!
