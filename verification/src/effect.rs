//! What an instruction asks the runtime and the token programs to do.

use crate::accounts::{Slot, TokenAccount};
use crate::address::Address;
use crate::state::EscrowState;
use vstd::prelude::*;

verus! {

/// A transfer of tokens that names the mint and its decimals.
#[derive(Clone, Copy, Debug)]
pub struct TransferChecked {
    pub from: Address,
    pub mint: Address,
    pub to: Address,
    pub authority: Address,
    pub amount: u64,
    pub decimals: u8,
    pub token_program: Address,
}

/// The creation of an empty associated token account.
#[derive(Clone, Copy, Debug)]
pub struct CreateTokenAccount {
    pub address: Address,
    pub mint: Address,
    pub owner: Address,
    pub token_program: Address,
    /// Who pays the rent.
    pub payer: Address,
}

/// The closing of an empty token account.
#[derive(Clone, Copy, Debug)]
pub struct CloseTokenAccount {
    pub address: Address,
    pub authority: Address,
    pub token_program: Address,
    /// Who gets the rent.
    pub destination: Address,
}

/// One step of what an instruction does.
#[derive(Clone, Copy, Debug)]
pub enum Effect {
    CreateEscrow {
        address: Address,
        state: EscrowState,
        /// Who pays the rent.
        payer: Address,
    },
    StoreEscrow { address: Address, state: EscrowState },
    CloseEscrow {
        address: Address,
        /// Who gets the rent.
        destination: Address,
    },
    CreateTokenAccount(CreateTokenAccount),
    TransferChecked(TransferChecked),
    CloseTokenAccount(CloseTokenAccount),
}

/// The creation of the associated account of `owner` for `mint` at the expense
/// of `payer`, if there is no account in the slot.
pub open spec fn creation_of(
    token: Slot<TokenAccount>,
    owner: Address,
    mint: Address,
    token_program: Address,
    payer: Address,
) -> Option<CreateTokenAccount> {
    match token.data {
        Some(_) => None,
        None => Some(
            CreateTokenAccount { address: token.key, mint, owner, token_program, payer },
        ),
    }
}

/// The effects that create the account in question, if it is to be created.
pub open spec fn creation_effects(creation: Option<CreateTokenAccount>) -> Seq<Effect> {
    match creation {
        Some(c) => seq![Effect::CreateTokenAccount(c)],
        None => Seq::empty(),
    }
}

/// Adds the creation of the associated account of `owner` for `mint` at the
/// expense of `payer`, if there is no account in the slot.
pub(crate) fn push_creation(
    effects: &mut Vec<Effect>,
    token: &Slot<TokenAccount>,
    owner: Address,
    mint: Address,
    token_program: Address,
    payer: Address,
)
    ensures
        final(effects)@ == old(effects)@ + creation_effects(
            creation_of(*token, owner, mint, token_program, payer),
        ),
{
    if token.data.is_none() {
        effects.push(
            Effect::CreateTokenAccount(
                CreateTokenAccount { address: token.key, mint, owner, token_program, payer },
            ),
        );
    }
}

} // verus!
