//! Which accounts an instruction accepts, and what its refusals mean.

use crate::accounts::is_token_program;
use crate::address::{is_associated, is_escrow, program_address};
use crate::constants::{ESCROW_SEED, ID, TOKEN_2022_PROGRAM, TOKEN_PROGRAM};
use crate::error::Error;
use crate::instructions::make::MakeAccounts;
use crate::instructions::refund::RefundAccounts;
use crate::instructions::take::TakeAccounts;
use crate::instructions::update::UpdateAccounts;
use vstd::bytes::*;
use vstd::prelude::*;

verus! {

/// An offer can be made with accounts that are in order, and with no others. The
/// maker signs; both mints, whatever their decimals, and the maker's token
/// account, whatever it holds, are of the one token program that is given, either
/// of the two; the token account is the maker's own; and the addresses that the
/// escrow and its vault are to have are free.
pub proof fn law_make_accepts(a: MakeAccounts, seed: u64)
    ensures
        a.fault(seed) is None <==> {
            &&& a.maker.is_signer
            &&& a.maker.is_writable
            &&& (a.token_program.bytes@ == TOKEN_PROGRAM@ || a.token_program.bytes@
                == TOKEN_2022_PROGRAM@)
            &&& a.mint_a.data is Some
            &&& a.mint_a.data->0.token_program == a.token_program
            &&& a.mint_b.data is Some
            &&& a.mint_b.data->0.token_program == a.token_program
            &&& a.maker_ata_a.data is Some
            &&& a.maker_ata_a.data->0.mint == a.mint_a.key
            &&& a.maker_ata_a.data->0.owner == a.maker.key
            &&& a.maker_ata_a.data->0.token_program == a.token_program
            &&& is_associated(a.maker.key, a.mint_a.key, a.token_program, a.maker_ata_a.key)
            &&& a.maker_ata_a.is_writable
            &&& is_escrow(a.maker.key, seed, a.escrow.key)
            &&& a.escrow.data is None
            &&& !a.escrow.is_foreign
            &&& a.escrow.is_writable
            &&& is_associated(a.escrow.key, a.mint_a.key, a.token_program, a.vault.key)
            &&& a.vault.data is None
            &&& !a.vault.is_foreign
            &&& a.vault.is_writable
        },
{
}

/// An offer can be taken with accounts that are in order, and with no others.
/// The taker signs; the mints are those of the offer, whatever their decimals,
/// and of the one token program that is given, either of the two; the maker is
/// the offer's and the vault the escrow's. The taker's account for the price
/// exists. The two accounts that receive exist or are still to be created: an
/// account that a party has already is as good as one that is missing. What any
/// of the accounts holds makes no difference.
pub proof fn law_take_accepts(a: TakeAccounts)
    ensures
        a.fault() is None <==> {
            &&& a.taker.is_signer
            &&& a.taker.is_writable
            &&& a.maker.is_writable
            &&& (a.token_program.bytes@ == TOKEN_PROGRAM@ || a.token_program.bytes@
                == TOKEN_2022_PROGRAM@)
            &&& a.mint_a.data is Some
            &&& a.mint_a.data->0.token_program == a.token_program
            &&& a.mint_b.data is Some
            &&& a.mint_b.data->0.token_program == a.token_program
            &&& is_associated(a.taker.key, a.mint_a.key, a.token_program, a.taker_ata_a.key)
            &&& a.taker_ata_a.data is None ==> !a.taker_ata_a.is_foreign
            &&& a.taker_ata_a.data is Some ==> {
                &&& a.taker_ata_a.data->0.mint == a.mint_a.key
                &&& a.taker_ata_a.data->0.owner == a.taker.key
                &&& a.taker_ata_a.data->0.token_program == a.token_program
            }
            &&& a.taker_ata_a.is_writable
            &&& a.taker_ata_b.data is Some
            &&& a.taker_ata_b.data->0.mint == a.mint_b.key
            &&& a.taker_ata_b.data->0.owner == a.taker.key
            &&& a.taker_ata_b.data->0.token_program == a.token_program
            &&& is_associated(a.taker.key, a.mint_b.key, a.token_program, a.taker_ata_b.key)
            &&& a.taker_ata_b.is_writable
            &&& is_associated(a.maker.key, a.mint_b.key, a.token_program, a.maker_ata_b.key)
            &&& a.maker_ata_b.data is None ==> !a.maker_ata_b.is_foreign
            &&& a.maker_ata_b.data is Some ==> {
                &&& a.maker_ata_b.data->0.mint == a.mint_b.key
                &&& a.maker_ata_b.data->0.owner == a.maker.key
                &&& a.maker_ata_b.data->0.token_program == a.token_program
            }
            &&& a.maker_ata_b.is_writable
            &&& a.escrow.data is Some
            &&& program_address(
                ESCROW_SEED@,
                a.escrow.data->0.maker.bytes@,
                spec_u64_to_le_bytes(a.escrow.data->0.seed),
                a.escrow.data->0.bump,
                ID@,
            ) == Some(a.escrow.key.bytes@)
            &&& a.escrow.is_writable
            &&& a.escrow.data->0.maker == a.maker.key
            &&& a.escrow.data->0.mint_a == a.mint_a.key
            &&& a.escrow.data->0.mint_b == a.mint_b.key
            &&& a.escrow.key != a.maker.key
            &&& a.vault.data is Some
            &&& a.vault.data->0.mint == a.mint_a.key
            &&& a.vault.data->0.owner == a.escrow.key
            &&& a.vault.data->0.token_program == a.token_program
            &&& is_associated(a.escrow.key, a.mint_a.key, a.token_program, a.vault.key)
            &&& a.vault.is_writable
        },
{
}

/// An offer can be refunded with accounts that are in order, and with no others.
/// The maker of the offer signs; the mint is that of the deposit, whatever its
/// decimals, and of the token program that is given, either of the two; and the
/// vault is the escrow's. The maker's token account exists, whatever it holds, or
/// is still to be created. Neither the price nor the deadline matters.
pub proof fn law_refund_accepts(a: RefundAccounts)
    ensures
        a.fault() is None <==> {
            &&& a.maker.is_signer
            &&& a.maker.is_writable
            &&& (a.token_program.bytes@ == TOKEN_PROGRAM@ || a.token_program.bytes@
                == TOKEN_2022_PROGRAM@)
            &&& a.mint_a.data is Some
            &&& a.mint_a.data->0.token_program == a.token_program
            &&& is_associated(a.maker.key, a.mint_a.key, a.token_program, a.maker_ata_a.key)
            &&& a.maker_ata_a.data is None ==> !a.maker_ata_a.is_foreign
            &&& a.maker_ata_a.data is Some ==> {
                &&& a.maker_ata_a.data->0.mint == a.mint_a.key
                &&& a.maker_ata_a.data->0.owner == a.maker.key
                &&& a.maker_ata_a.data->0.token_program == a.token_program
            }
            &&& a.maker_ata_a.is_writable
            &&& a.escrow.data is Some
            &&& program_address(
                ESCROW_SEED@,
                a.escrow.data->0.maker.bytes@,
                spec_u64_to_le_bytes(a.escrow.data->0.seed),
                a.escrow.data->0.bump,
                ID@,
            ) == Some(a.escrow.key.bytes@)
            &&& a.escrow.is_writable
            &&& a.escrow.data->0.maker == a.maker.key
            &&& a.escrow.data->0.mint_a == a.mint_a.key
            &&& a.escrow.key != a.maker.key
            &&& a.vault.data is Some
            &&& a.vault.data->0.mint == a.mint_a.key
            &&& a.vault.data->0.owner == a.escrow.key
            &&& a.vault.data->0.token_program == a.token_program
            &&& is_associated(a.escrow.key, a.mint_a.key, a.token_program, a.vault.key)
            &&& a.vault.is_writable
        },
{
}

/// An offer can be repriced with accounts that are in order, and with no others.
/// The maker of the offer signs, and the mint of the new price, whichever it is
/// and whatever its decimals, is of the token program that is given, either of
/// the two.
pub proof fn law_update_accepts(a: UpdateAccounts)
    ensures
        a.fault() is None <==> {
            &&& a.maker.is_signer
            &&& (a.token_program.bytes@ == TOKEN_PROGRAM@ || a.token_program.bytes@
                == TOKEN_2022_PROGRAM@)
            &&& a.mint_b.data is Some
            &&& a.mint_b.data->0.token_program == a.token_program
            &&& a.escrow.data is Some
            &&& program_address(
                ESCROW_SEED@,
                a.escrow.data->0.maker.bytes@,
                spec_u64_to_le_bytes(a.escrow.data->0.seed),
                a.escrow.data->0.bump,
                ID@,
            ) == Some(a.escrow.key.bytes@)
            &&& a.escrow.is_writable
            &&& a.escrow.data->0.maker == a.maker.key
        },
{
}

/// What a `make` is refused for on account of its accounts is so. There is no
/// other ground, so a single thing that is wrong is the one that is named.
pub proof fn law_make_refusals(a: MakeAccounts, seed: u64)
    ensures
        match a.fault(seed) {
            None => true,
            Some(Error::AccountNotSigner) => !a.maker.is_signer,
            Some(Error::AccountNotInitialized) => {
                ||| a.mint_a.data is None && !a.mint_a.is_foreign
                ||| a.mint_b.data is None && !a.mint_b.is_foreign
                ||| a.maker_ata_a.data is None && !a.maker_ata_a.is_foreign
            },
            Some(Error::AccountOwnedByWrongProgram) => {
                ||| a.mint_a.data is None && a.mint_a.is_foreign
                ||| a.mint_b.data is None && a.mint_b.is_foreign
                ||| a.maker_ata_a.data is None && a.maker_ata_a.is_foreign
                ||| a.mint_a.data is Some && !is_token_program(a.mint_a.data->0.token_program)
                ||| a.mint_b.data is Some && !is_token_program(a.mint_b.data->0.token_program)
                ||| a.maker_ata_a.data is Some
                    && !is_token_program(a.maker_ata_a.data->0.token_program)
            },
            Some(Error::InvalidProgramId) => !is_token_program(a.token_program),
            Some(Error::ConstraintMintTokenProgram) => {
                ||| a.mint_a.data is Some && a.mint_a.data->0.token_program != a.token_program
                ||| a.mint_b.data is Some && a.mint_b.data->0.token_program != a.token_program
            },
            Some(Error::ConstraintSeeds) => !is_escrow(a.maker.key, seed, a.escrow.key),
            Some(Error::AccountAlreadyInUse) => {
                ||| a.escrow.data is Some
                ||| a.escrow.is_foreign
            },
            Some(Error::InvalidSeeds) => !is_associated(
                a.escrow.key,
                a.mint_a.key,
                a.token_program,
                a.vault.key,
            ),
            Some(Error::IllegalOwner) => {
                ||| a.vault.data is Some
                ||| a.vault.is_foreign
            },
            Some(Error::ConstraintMut) => {
                ||| !a.escrow.is_writable
                ||| !a.vault.is_writable
                ||| !a.maker.is_writable
                ||| !a.maker_ata_a.is_writable
            },
            Some(Error::ConstraintTokenMint) => a.maker_ata_a.data is Some
                && a.maker_ata_a.data->0.mint != a.mint_a.key,
            Some(Error::ConstraintTokenOwner) => a.maker_ata_a.data is Some
                && a.maker_ata_a.data->0.owner != a.maker.key,
            Some(Error::ConstraintAssociatedTokenTokenProgram) => a.maker_ata_a.data is Some
                && a.maker_ata_a.data->0.token_program != a.token_program,
            Some(Error::ConstraintAssociated) => !is_associated(
                a.maker.key,
                a.mint_a.key,
                a.token_program,
                a.maker_ata_a.key,
            ),
            Some(_) => false,
        },
{
}

/// What a `take` is refused for on account of its accounts is so. There is no
/// other ground, so a single thing that is wrong is the one that is named.
pub proof fn law_take_refusals(a: TakeAccounts)
    ensures
        match a.fault() {
            None => true,
            Some(Error::AccountNotSigner) => !a.taker.is_signer,
            Some(Error::AccountNotInitialized) => {
                ||| a.mint_a.data is None && !a.mint_a.is_foreign
                ||| a.mint_b.data is None && !a.mint_b.is_foreign
                ||| a.taker_ata_b.data is None && !a.taker_ata_b.is_foreign
                ||| a.escrow.data is None && !a.escrow.is_foreign
                ||| a.vault.data is None && !a.vault.is_foreign
            },
            Some(Error::AccountOwnedByWrongProgram) => {
                ||| a.mint_a.data is None && a.mint_a.is_foreign
                ||| a.mint_b.data is None && a.mint_b.is_foreign
                ||| a.taker_ata_b.data is None && a.taker_ata_b.is_foreign
                ||| a.vault.data is None && a.vault.is_foreign
                ||| a.mint_a.data is Some && !is_token_program(a.mint_a.data->0.token_program)
                ||| a.mint_b.data is Some && !is_token_program(a.mint_b.data->0.token_program)
                ||| a.taker_ata_b.data is Some
                    && !is_token_program(a.taker_ata_b.data->0.token_program)
                ||| a.vault.data is Some && !is_token_program(a.vault.data->0.token_program)
                ||| a.taker_ata_a.data is None && a.taker_ata_a.is_foreign
                ||| a.taker_ata_a.data is Some
                    && !is_token_program(a.taker_ata_a.data->0.token_program)
                ||| a.maker_ata_b.data is None && a.maker_ata_b.is_foreign
                ||| a.maker_ata_b.data is Some
                    && !is_token_program(a.maker_ata_b.data->0.token_program)
                ||| a.escrow.data is None && a.escrow.is_foreign
            },
            Some(Error::InvalidProgramId) => !is_token_program(a.token_program),
            Some(Error::ConstraintMintTokenProgram) => {
                ||| a.mint_a.data is Some && a.mint_a.data->0.token_program != a.token_program
                ||| a.mint_b.data is Some && a.mint_b.data->0.token_program != a.token_program
            },
            Some(Error::InvalidSeeds) => {
                ||| a.taker_ata_a.data is None
                    && !is_associated(a.taker.key, a.mint_a.key, a.token_program, a.taker_ata_a.key)
                ||| a.maker_ata_b.data is None
                    && !is_associated(a.maker.key, a.mint_b.key, a.token_program, a.maker_ata_b.key)
            },
            Some(Error::AccountNotAssociatedTokenAccount) => {
                ||| a.taker_ata_a.data is Some
                    && !is_associated(a.taker.key, a.mint_a.key, a.token_program, a.taker_ata_a.key)
                ||| a.maker_ata_b.data is Some
                    && !is_associated(a.maker.key, a.mint_b.key, a.token_program, a.maker_ata_b.key)
            },
            Some(Error::ConstraintAssociated) => {
                ||| !is_associated(a.taker.key, a.mint_b.key, a.token_program, a.taker_ata_b.key)
                ||| !is_associated(a.escrow.key, a.mint_a.key, a.token_program, a.vault.key)
            },
            Some(Error::ConstraintTokenMint) => {
                ||| a.taker_ata_a.data is Some && a.taker_ata_a.data->0.mint != a.mint_a.key
                ||| a.taker_ata_b.data is Some && a.taker_ata_b.data->0.mint != a.mint_b.key
                ||| a.maker_ata_b.data is Some && a.maker_ata_b.data->0.mint != a.mint_b.key
                ||| a.vault.data is Some && a.vault.data->0.mint != a.mint_a.key
            },
            Some(Error::ConstraintTokenOwner) => {
                ||| a.taker_ata_a.data is Some && a.taker_ata_a.data->0.owner != a.taker.key
                ||| a.taker_ata_b.data is Some && a.taker_ata_b.data->0.owner != a.taker.key
                ||| a.maker_ata_b.data is Some && a.maker_ata_b.data->0.owner != a.maker.key
                ||| a.vault.data is Some && a.vault.data->0.owner != a.escrow.key
            },
            Some(Error::ConstraintAssociatedTokenTokenProgram) => {
                ||| a.taker_ata_a.data is Some
                    && a.taker_ata_a.data->0.token_program != a.token_program
                ||| a.taker_ata_b.data is Some
                    && a.taker_ata_b.data->0.token_program != a.token_program
                ||| a.maker_ata_b.data is Some
                    && a.maker_ata_b.data->0.token_program != a.token_program
                ||| a.vault.data is Some && a.vault.data->0.token_program != a.token_program
            },
            Some(Error::ConstraintSeeds) => program_address(
                ESCROW_SEED@,
                a.escrow.data->0.maker.bytes@,
                spec_u64_to_le_bytes(a.escrow.data->0.seed),
                a.escrow.data->0.bump,
                ID@,
            ) != Some(a.escrow.key.bytes@),
            Some(Error::ConstraintMut) => {
                ||| !a.taker.is_writable
                ||| !a.maker.is_writable
                ||| !a.taker_ata_a.is_writable
                ||| !a.taker_ata_b.is_writable
                ||| !a.maker_ata_b.is_writable
                ||| !a.escrow.is_writable
                ||| !a.vault.is_writable
            },
            Some(Error::ConstraintHasOne) => {
                ||| a.escrow.data->0.maker != a.maker.key
                ||| a.escrow.data->0.mint_a != a.mint_a.key
                ||| a.escrow.data->0.mint_b != a.mint_b.key
            },
            Some(Error::ConstraintClose) => a.escrow.key == a.maker.key,
            Some(_) => false,
        },
{
}

/// What a `refund` is refused for is so. There is no other ground, so a single
/// thing that is wrong is the one that is named.
pub proof fn law_refund_refusals(a: RefundAccounts)
    ensures
        match a.fault() {
            None => true,
            Some(Error::AccountNotSigner) => !a.maker.is_signer,
            Some(Error::AccountNotInitialized) => {
                ||| a.mint_a.data is None && !a.mint_a.is_foreign
                ||| a.escrow.data is None && !a.escrow.is_foreign
                ||| a.vault.data is None && !a.vault.is_foreign
            },
            Some(Error::AccountOwnedByWrongProgram) => {
                ||| a.mint_a.data is None && a.mint_a.is_foreign
                ||| a.vault.data is None && a.vault.is_foreign
                ||| a.mint_a.data is Some && !is_token_program(a.mint_a.data->0.token_program)
                ||| a.vault.data is Some && !is_token_program(a.vault.data->0.token_program)
                ||| a.maker_ata_a.data is None && a.maker_ata_a.is_foreign
                ||| a.maker_ata_a.data is Some
                    && !is_token_program(a.maker_ata_a.data->0.token_program)
                ||| a.escrow.data is None && a.escrow.is_foreign
            },
            Some(Error::InvalidProgramId) => !is_token_program(a.token_program),
            Some(Error::ConstraintMintTokenProgram) => a.mint_a.data is Some
                && a.mint_a.data->0.token_program != a.token_program,
            Some(Error::InvalidSeeds) => a.maker_ata_a.data is None
                && !is_associated(a.maker.key, a.mint_a.key, a.token_program, a.maker_ata_a.key),
            Some(Error::AccountNotAssociatedTokenAccount) => a.maker_ata_a.data is Some
                && !is_associated(a.maker.key, a.mint_a.key, a.token_program, a.maker_ata_a.key),
            Some(Error::ConstraintAssociated) => !is_associated(
                a.escrow.key,
                a.mint_a.key,
                a.token_program,
                a.vault.key,
            ),
            Some(Error::ConstraintTokenMint) => {
                ||| a.maker_ata_a.data is Some && a.maker_ata_a.data->0.mint != a.mint_a.key
                ||| a.vault.data is Some && a.vault.data->0.mint != a.mint_a.key
            },
            Some(Error::ConstraintTokenOwner) => {
                ||| a.maker_ata_a.data is Some && a.maker_ata_a.data->0.owner != a.maker.key
                ||| a.vault.data is Some && a.vault.data->0.owner != a.escrow.key
            },
            Some(Error::ConstraintAssociatedTokenTokenProgram) => {
                ||| a.maker_ata_a.data is Some
                    && a.maker_ata_a.data->0.token_program != a.token_program
                ||| a.vault.data is Some && a.vault.data->0.token_program != a.token_program
            },
            Some(Error::ConstraintSeeds) => program_address(
                ESCROW_SEED@,
                a.escrow.data->0.maker.bytes@,
                spec_u64_to_le_bytes(a.escrow.data->0.seed),
                a.escrow.data->0.bump,
                ID@,
            ) != Some(a.escrow.key.bytes@),
            Some(Error::ConstraintMut) => {
                ||| !a.maker.is_writable
                ||| !a.maker_ata_a.is_writable
                ||| !a.escrow.is_writable
                ||| !a.vault.is_writable
            },
            Some(Error::ConstraintHasOne) => {
                ||| a.escrow.data->0.maker != a.maker.key
                ||| a.escrow.data->0.mint_a != a.mint_a.key
            },
            Some(Error::ConstraintClose) => a.escrow.key == a.maker.key,
            Some(_) => false,
        },
{
}

/// What an `update` is refused for on account of its accounts is so, and nothing
/// that is looked at before is wrong: the signature, the mint, the escrow, the
/// token program, that of the mint, the escrow's place, that it is writable, and
/// that it is the signer's, in this order.
pub proof fn law_update_refusals(a: UpdateAccounts)
    ensures
        !a.maker.is_signer <==> a.fault() == Some(Error::AccountNotSigner),
        a.maker.is_signer && a.mint_b.data is None ==> a.fault() == Some(
            if a.mint_b.is_foreign {
                Error::AccountOwnedByWrongProgram
            } else {
                Error::AccountNotInitialized
            },
        ),
        a.maker.is_signer && a.mint_b.data is Some ==> {
            let mint_program = a.mint_b.data->0.token_program;
            if mint_program.bytes@ != TOKEN_PROGRAM@ && mint_program.bytes@ != TOKEN_2022_PROGRAM@ {
                a.fault() == Some(Error::AccountOwnedByWrongProgram)
            } else if a.escrow.data is None {
                a.fault() == Some(
                    if a.escrow.is_foreign {
                        Error::AccountOwnedByWrongProgram
                    } else {
                        Error::AccountNotInitialized
                    },
                )
            } else {
                &&& a.fault() == Some(Error::InvalidProgramId) <==> a.token_program.bytes@
                    != TOKEN_PROGRAM@ && a.token_program.bytes@ != TOKEN_2022_PROGRAM@
                &&& a.fault() == Some(Error::ConstraintMintTokenProgram) <==> is_token_program(
                    a.token_program,
                ) && mint_program != a.token_program
                &&& mint_program == a.token_program ==> {
                    let state = a.escrow.data->0;
                    let placed = program_address(
                        ESCROW_SEED@,
                        state.maker.bytes@,
                        spec_u64_to_le_bytes(state.seed),
                        state.bump,
                        ID@,
                    ) == Some(a.escrow.key.bytes@);
                    &&& a.fault() == Some(Error::ConstraintSeeds) <==> !placed
                    &&& a.fault() == Some(Error::ConstraintMut) <==> placed && !a.escrow.is_writable
                    &&& a.fault() == Some(Error::ConstraintHasOne) <==> placed
                        && a.escrow.is_writable && state.maker != a.maker.key
                }
            }
        },
{
}

/// The signature is looked at first, and how accounts relate to one another only
/// once all that must exist do and the token program is one of the two.
pub proof fn law_existence_comes_first(
    m: MakeAccounts,
    seed: u64,
    t: TakeAccounts,
    f: RefundAccounts,
)
    ensures
        m.fault(seed) == Some(Error::AccountNotSigner) <==> !m.maker.is_signer,
        t.fault() == Some(Error::AccountNotSigner) <==> !t.taker.is_signer,
        f.fault() == Some(Error::AccountNotSigner) <==> !f.maker.is_signer,
        m.maker.is_signer && (m.mint_a.data is None || m.mint_b.data is None || m.maker_ata_a.data
            is None || !is_token_program(m.token_program)) ==> {
            ||| m.fault(seed) == Some(Error::AccountNotInitialized)
            ||| m.fault(seed) == Some(Error::AccountOwnedByWrongProgram)
            ||| m.fault(seed) == Some(Error::InvalidProgramId)
        },
        t.taker.is_signer && (t.mint_a.data is None || t.mint_b.data is None || t.taker_ata_b.data
            is None || t.escrow.data is None || t.vault.data is None || !is_token_program(
            t.token_program,
        )) ==> {
            ||| t.fault() == Some(Error::AccountNotInitialized)
            ||| t.fault() == Some(Error::AccountOwnedByWrongProgram)
            ||| t.fault() == Some(Error::InvalidProgramId)
        },
        f.maker.is_signer && (f.mint_a.data is None || f.escrow.data is None || f.vault.data is None
            || !is_token_program(f.token_program)) ==> {
            ||| f.fault() == Some(Error::AccountNotInitialized)
            ||| f.fault() == Some(Error::AccountOwnedByWrongProgram)
            ||| f.fault() == Some(Error::InvalidProgramId)
        },
{
}

} // verus!
