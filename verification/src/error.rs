//! Why an instruction is refused.

use vstd::prelude::*;

verus! {

/// The refusals that are the escrow's own.
#[derive(Clone, Copy, Debug, PartialEq, Eq, Structural)]
pub enum EscrowError {
    /// An offer is made with a deadline that has been reached.
    DeadlineInPast,
    /// An offer is taken or repriced at its deadline or later.
    EscrowExpired,
    /// An offer is taken at a price that it no longer asks.
    TermsChanged,
}

/// Every refusal. Those beside `Escrow` say which demand on an account, or on
/// an argument, is not met.
#[derive(Clone, Copy, Debug, PartialEq, Eq, Structural)]
pub enum Error {
    Escrow(EscrowError),
    /// An amount that must be positive is zero.
    RequireGtViolated,
    /// An account that must sign did not.
    AccountNotSigner,
    /// An account that must exist does not.
    AccountNotInitialized,
    /// A mint or a token account belongs to no token program.
    AccountOwnedByWrongProgram,
    /// The token program is neither of the two.
    InvalidProgramId,
    /// An account that is written to was passed as read-only.
    ConstraintMut,
    /// An account is not the one that the escrow names.
    ConstraintHasOne,
    /// An escrow does not live at the address that its seeds derive.
    ConstraintSeeds,
    /// An account would be closed to itself.
    ConstraintClose,
    /// A mint belongs to another token program.
    ConstraintMintTokenProgram,
    /// A token account is of another mint.
    ConstraintTokenMint,
    /// A token account has another owner.
    ConstraintTokenOwner,
    /// A token account belongs to another token program.
    ConstraintAssociatedTokenTokenProgram,
    /// A token account is not the associated one of its owner and mint.
    ConstraintAssociated,
    /// The same, of an account that would be created if it did not exist.
    AccountNotAssociatedTokenAccount,
    /// The same, of an account that does not exist and is to be created.
    InvalidSeeds,
    /// An escrow that is to be created exists.
    AccountAlreadyInUse,
    /// A token account that is to be created exists.
    IllegalOwner,
}

impl EscrowError {
    pub open spec fn spec_code(self) -> u32 {
        match self {
            EscrowError::DeadlineInPast => 6000,
            EscrowError::EscrowExpired => 6001,
            EscrowError::TermsChanged => 6002,
        }
    }

    pub open spec fn spec_message(self) -> Seq<char> {
        match self {
            EscrowError::DeadlineInPast => "Deadline must be in the future"@,
            EscrowError::EscrowExpired => "This escrow has expired and can only be refunded"@,
            EscrowError::TermsChanged => "Escrow terms changed since you read them"@,
        }
    }

    /// The number that a client sees.
    pub fn code(self) -> (r: u32)
        ensures
            r == self.spec_code(),
    {
        match self {
            EscrowError::DeadlineInPast => 6000,
            EscrowError::EscrowExpired => 6001,
            EscrowError::TermsChanged => 6002,
        }
    }

    /// The sentence that a client sees.
    pub fn message(self) -> (r: &'static str)
        ensures
            r@ == self.spec_message(),
    {
        match self {
            EscrowError::DeadlineInPast => "Deadline must be in the future",
            EscrowError::EscrowExpired => "This escrow has expired and can only be refunded",
            EscrowError::TermsChanged => "Escrow terms changed since you read them",
        }
    }
}

} // verus!
