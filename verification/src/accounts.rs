//! The accounts that instructions are given, and the demands on them.

use crate::address::{associated_token_address, create_escrow_address, derives_escrow,
    escrow_bump, find_escrow_address, is_associated, is_escrow, is_escrow_address,
    lemma_address_from_bytes, lemma_associated_unique, lemma_escrow_address_unique, Address};
use crate::constants::{ID, SYSTEM_PROGRAM, TOKEN_2022_PROGRAM, TOKEN_PROGRAM};
use crate::error::Error;
use crate::state::EscrowState;
use vstd::prelude::*;

verus! {

/// A party to an instruction.
#[derive(Clone, Copy, Debug)]
pub struct Wallet {
    pub key: Address,
    pub is_signer: bool,
    pub is_writable: bool,
}

/// A mint, as far as the escrow reads it.
#[derive(Clone, Copy, Debug)]
pub struct Mint {
    pub decimals: u8,
    /// The program that the mint belongs to.
    pub token_program: Address,
}

/// A token account, as far as the escrow reads it.
#[derive(Clone, Copy, Debug)]
pub struct TokenAccount {
    pub mint: Address,
    pub owner: Address,
    pub amount: u64,
    /// The program that the account belongs to.
    pub token_program: Address,
}

/// An account as it is passed to an instruction: what it holds, or nothing
/// where there is no such account at the address.
#[derive(Debug)]
pub struct Slot<T> {
    pub key: Address,
    pub is_writable: bool,
    /// Where `data` is nothing, whether that is because an account of another
    /// kind is at the address.
    pub is_foreign: bool,
    pub data: Option<T>,
}

/// An account that is known to exist.
#[derive(Debug)]
pub struct Account<T> {
    pub key: Address,
    pub data: T,
}

impl<T> Slot<T> {
    /// The account at the slot's address.
    pub open spec fn account(self) -> Account<T>
        recommends
            self.data is Some,
    {
        Account { key: self.key, data: self.data->0 }
    }

    /// What it means for an account that must exist that there is none.
    pub open spec fn absence(self) -> Error {
        if self.is_foreign {
            Error::AccountOwnedByWrongProgram
        } else {
            Error::AccountNotInitialized
        }
    }

    /// Whether there is no account at all at the address.
    pub open spec fn vacant(self) -> bool {
        self.data is None && !self.is_foreign
    }

    /// What it means for an account that must exist that there is none.
    pub(crate) fn absence_error(&self) -> (r: Error)
        ensures
            r == self.absence(),
    {
        if self.is_foreign {
            Error::AccountOwnedByWrongProgram
        } else {
            Error::AccountNotInitialized
        }
    }

    /// Whether there is no account at all at the address.
    pub(crate) fn is_vacant(&self) -> (r: bool)
        ensures
            r == self.vacant(),
    {
        self.data.is_none() && !self.is_foreign
    }
}

/// What is at an address where an account is looked for.
#[derive(Clone, Copy, Debug, PartialEq, Eq, Structural)]
pub enum Standing {
    /// No account.
    Vacant,
    /// An account of another program.
    Foreign,
    /// An account of the right program.
    Own,
}

/// What is at an address that holds `lamports` and belongs to `owner`. The
/// system program owns every address without an account. Lamports alone do not
/// keep an account from being created there, but where one has to exist they
/// pass for one of the wrong kind.
pub open spec fn standing(
    owner: Address,
    lamports: u64,
    can_create: bool,
    is_own: bool,
) -> Standing {
    if owner.bytes@ == SYSTEM_PROGRAM@ && (can_create || lamports == 0) {
        Standing::Vacant
    } else if is_own {
        Standing::Own
    } else {
        Standing::Foreign
    }
}

/// Whether `program` is one of the two token programs.
pub open spec fn is_token_program(program: Address) -> bool {
    program.bytes@ == TOKEN_PROGRAM@ || program.bytes@ == TOKEN_2022_PROGRAM@
}

/// What is wrong with an account that must be a mint.
pub open spec fn mint_fault(mint: Slot<Mint>) -> Option<Error> {
    match mint.data {
        None => Some(mint.absence()),
        Some(m) => if is_token_program(m.token_program) {
            None
        } else {
            Some(Error::AccountOwnedByWrongProgram)
        },
    }
}

/// What is wrong with an account that must be a token account.
pub open spec fn token_fault(token: Slot<TokenAccount>) -> Option<Error> {
    match token.data {
        None => Some(token.absence()),
        Some(t) => if is_token_program(t.token_program) {
            None
        } else {
            Some(Error::AccountOwnedByWrongProgram)
        },
    }
}

/// What is wrong with the token account `token` at `key` where the associated
/// one of `owner` for `mint` is wanted; `misplaced` if only its address is.
pub open spec fn associated_fault(
    key: Address,
    token: TokenAccount,
    owner: Address,
    mint: Address,
    token_program: Address,
    misplaced: Error,
) -> Option<Error> {
    if token.mint != mint {
        Some(Error::ConstraintTokenMint)
    } else if token.owner != owner {
        Some(Error::ConstraintTokenOwner)
    } else if token.token_program != token_program {
        Some(Error::ConstraintAssociatedTokenTokenProgram)
    } else if !is_associated(owner, mint, token_program, key) {
        Some(misplaced)
    } else {
        None
    }
}

/// What is wrong with `token` where the associated account of `owner` for
/// `mint` is wanted, and created if it does not exist.
pub open spec fn ensured_fault(
    token: Slot<TokenAccount>,
    owner: Address,
    mint: Address,
    token_program: Address,
) -> Option<Error> {
    match token.data {
        None => if token.is_foreign {
            Some(Error::AccountOwnedByWrongProgram)
        } else if is_associated(owner, mint, token_program, token.key) {
            None
        } else {
            Some(Error::InvalidSeeds)
        },
        Some(t) => if !is_token_program(t.token_program) {
            Some(Error::AccountOwnedByWrongProgram)
        } else {
            associated_fault(
                token.key,
                t,
                owner,
                mint,
                token_program,
                Error::AccountNotAssociatedTokenAccount,
            )
        },
    }
}

/// Whether the escrow at `key` lives where its own seeds put it.
pub open spec fn escrow_in_place(key: Address, state: EscrowState) -> bool {
    derives_escrow(state.maker, state.seed, state.bump, key)
}

pub(crate) fn same_bytes(a: &[u8; 32], b: &[u8; 32]) -> (r: bool)
    ensures
        r == (a@ == b@),
{
    let x = Address { bytes: *a };
    let y = Address { bytes: *b };
    let r = x == y;
    proof {
        if a@ == b@ {
            lemma_address_from_bytes(x, y);
        }
    }
    r
}

pub(crate) fn check_token_program(program: &Address) -> (r: bool)
    ensures
        r == is_token_program(*program),
{
    same_bytes(&program.bytes, &TOKEN_PROGRAM) || same_bytes(&program.bytes, &TOKEN_2022_PROGRAM)
}

/// What is at the address of a mint or a token account, where `can_create` says
/// whether the instruction creates one that is missing.
pub fn token_standing(owner: &Address, lamports: u64, can_create: bool) -> (r: Standing)
    ensures
        r == standing(*owner, lamports, can_create, is_token_program(*owner)),
{
    if same_bytes(&owner.bytes, &SYSTEM_PROGRAM) && (can_create || lamports == 0) {
        Standing::Vacant
    } else if check_token_program(owner) {
        Standing::Own
    } else {
        Standing::Foreign
    }
}

/// What is at the address of an escrow, where `can_create` says whether the
/// instruction creates it.
pub fn escrow_standing(owner: &Address, lamports: u64, can_create: bool) -> (r: Standing)
    ensures
        r == standing(*owner, lamports, can_create, owner.bytes@ == ID@),
{
    if same_bytes(&owner.bytes, &SYSTEM_PROGRAM) && (can_create || lamports == 0) {
        Standing::Vacant
    } else if same_bytes(&owner.bytes, &ID) {
        Standing::Own
    } else {
        Standing::Foreign
    }
}

pub(crate) fn load_mint(mint: &Slot<Mint>) -> (r: Result<Account<Mint>, Error>)
    ensures
        match r {
            Ok(account) => mint_fault(*mint) is None && account == mint.account(),
            Err(e) => mint_fault(*mint) == Some(e),
        },
{
    match mint.data {
        None => Err(mint.absence_error()),
        Some(data) => if check_token_program(&data.token_program) {
            Ok(Account { key: mint.key, data })
        } else {
            Err(Error::AccountOwnedByWrongProgram)
        },
    }
}

pub(crate) fn load_token(token: &Slot<TokenAccount>) -> (r: Result<Account<TokenAccount>, Error>)
    ensures
        match r {
            Ok(account) => token_fault(*token) is None && account == token.account(),
            Err(e) => token_fault(*token) == Some(e),
        },
{
    match token.data {
        None => Err(token.absence_error()),
        Some(data) => if check_token_program(&data.token_program) {
            Ok(Account { key: token.key, data })
        } else {
            Err(Error::AccountOwnedByWrongProgram)
        },
    }
}

pub(crate) fn check_address(
    key: &Address,
    owner: &Address,
    mint: &Address,
    token_program: &Address,
) -> (r: bool)
    ensures
        r == is_associated(*owner, *mint, *token_program, *key),
{
    match associated_token_address(owner, mint, token_program) {
        None => false,
        Some(wanted) => {
            proof {
                if is_associated(*owner, *mint, *token_program, *key) {
                    lemma_associated_unique(*owner, *mint, *token_program, *key, wanted);
                }
            }
            *key == wanted
        },
    }
}

pub(crate) fn check_associated(
    account: &Account<TokenAccount>,
    owner: &Address,
    mint: &Address,
    token_program: &Address,
    misplaced: Error,
) -> (r: Option<Error>)
    ensures
        r == associated_fault(
            account.key,
            account.data,
            *owner,
            *mint,
            *token_program,
            misplaced,
        ),
{
    if account.data.mint != *mint {
        Some(Error::ConstraintTokenMint)
    } else if account.data.owner != *owner {
        Some(Error::ConstraintTokenOwner)
    } else if account.data.token_program != *token_program {
        Some(Error::ConstraintAssociatedTokenTokenProgram)
    } else if !check_address(&account.key, owner, mint, token_program) {
        Some(misplaced)
    } else {
        None
    }
}

pub(crate) fn check_ensured(
    token: &Slot<TokenAccount>,
    owner: &Address,
    mint: &Address,
    token_program: &Address,
) -> (r: Option<Error>)
    ensures
        r == ensured_fault(*token, *owner, *mint, *token_program),
{
    match token.data {
        None => if token.is_foreign {
            Some(Error::AccountOwnedByWrongProgram)
        } else if check_address(&token.key, owner, mint, token_program) {
            None
        } else {
            Some(Error::InvalidSeeds)
        },
        Some(data) => if !check_token_program(&data.token_program) {
            Some(Error::AccountOwnedByWrongProgram)
        } else {
            let account = Account { key: token.key, data };
            check_associated(
                &account,
                owner,
                mint,
                token_program,
                Error::AccountNotAssociatedTokenAccount,
            )
        },
    }
}

pub(crate) fn check_escrow_in_place(key: &Address, state: &EscrowState) -> (r: bool)
    ensures
        r == escrow_in_place(*key, *state),
{
    match create_escrow_address(&state.maker, state.seed, state.bump) {
        None => false,
        Some(derived) => {
            proof {
                if escrow_in_place(*key, *state) {
                    lemma_address_from_bytes(*key, derived);
                }
            }
            *key == derived
        },
    }
}

/// Checks that `key` is where the offer of `maker` with `seed` lives, and
/// gives its canonical bump.
pub(crate) fn check_escrow_address(key: &Address, maker: &Address, seed: u64) -> (r: Option<u8>)
    ensures
        match r {
            Some(bump) => {
                &&& is_escrow(*maker, seed, *key)
                &&& bump == escrow_bump(*maker, seed, *key)
            },
            None => !is_escrow(*maker, seed, *key),
        },
{
    match find_escrow_address(maker, seed) {
        None => None,
        Some((derived, bump)) => {
            proof {
                if is_escrow(*maker, seed, *key) {
                    let canonical = escrow_bump(*maker, seed, *key);
                    lemma_escrow_address_unique(*maker, seed, *key, canonical, derived, bump);
                }
            }
            if *key == derived {
                assert(is_escrow_address(*maker, seed, *key, bump));
                Some(bump)
            } else {
                None
            }
        },
    }
}

} // verus!
