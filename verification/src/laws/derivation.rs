//! Where accounts live, and whose they are, byte by byte.

use crate::accounts::{escrow_in_place, is_token_program, standing, Mint, Slot, Standing,
    TokenAccount};
use crate::address::{derives_escrow, escrow_bump, is_associated, is_canonical, is_escrow,
    is_escrow_address, program_address, Address};
use crate::constants::{ASSOCIATED_TOKEN_PROGRAM, ESCROW_SEED, ID, SYSTEM_PROGRAM,
    TOKEN_2022_PROGRAM, TOKEN_PROGRAM};
use crate::error::{Error, EscrowError};
use crate::state::EscrowState;
use vstd::bytes::*;
use vstd::prelude::*;

verus! {

/// An offer lives at what the program derives from the word `escrow`, the maker
/// and the whole of the seed, as eight bytes of which the first is the lowest.
/// It is made where the largest bump that gives an address puts it, and found
/// again where the bump that it records does.
pub proof fn law_escrow_is_derived_from_the_whole_seed(
    maker: Address,
    seed: u64,
    s: Seq<u8>,
    key: Address,
    bump: u8,
)
    requires
        s.len() == 8,
        seed == s[0] + 0x100 * s[1] + 0x1_0000 * s[2] + 0x100_0000 * s[3] + 0x1_0000_0000 * s[4]
            + 0x100_0000_0000 * s[5] + 0x1_0000_0000_0000 * s[6] + 0x100_0000_0000_0000 * s[7],
    ensures
        ESCROW_SEED@ == seq![101u8, 115u8, 99u8, 114u8, 111u8, 119u8],
        derives_escrow(maker, seed, bump, key) <==> program_address(
            ESCROW_SEED@,
            maker.bytes@,
            s,
            bump,
            ID@,
        ) == Some(key.bytes@),
        is_escrow_address(maker, seed, key, bump) <==> {
            &&& bump > 0
            &&& program_address(ESCROW_SEED@, maker.bytes@, s, bump, ID@) == Some(key.bytes@)
            &&& forall|larger: u8|
                larger > bump ==> #[trigger] program_address(ESCROW_SEED@, maker.bytes@, s, larger, ID@)
                    is None
        },
        is_escrow(maker, seed, key) <==> exists|b: u8|
            {
                    &&& b > 0
                &&& #[trigger] program_address(ESCROW_SEED@, maker.bytes@, s, b, ID@) == Some(key.bytes@)
                &&& forall|larger: u8|
                    larger > b ==> #[trigger] program_address(
                        ESCROW_SEED@,
                        maker.bytes@,
                        s,
                        larger,
                        ID@,
                    ) is None
            },
        is_escrow(maker, seed, key) && is_escrow_address(maker, seed, key, bump) ==> escrow_bump(
            maker,
            seed,
            key,
        ) == bump,
{
    assert(ESCROW_SEED@ =~= seq![101u8, 115u8, 99u8, 114u8, 111u8, 119u8]);
    lemma_seed_bytes(seed, s);
    if is_escrow(maker, seed, key) {
        let b = choose|b: u8| #[trigger] is_escrow_address(maker, seed, key, b);
        assert(program_address(ESCROW_SEED@, maker.bytes@, s, b, ID@) == Some(key.bytes@));
    }
    if exists|b: u8|
        {
            &&& b > 0
            &&& #[trigger] program_address(ESCROW_SEED@, maker.bytes@, s, b, ID@) == Some(key.bytes@)
            &&& forall|larger: u8|
                larger > b ==> #[trigger] program_address(ESCROW_SEED@, maker.bytes@, s, larger, ID@)
                    is None
        } {
        let b = choose|b: u8|
            {
                &&& b > 0
                &&& #[trigger] program_address(ESCROW_SEED@, maker.bytes@, s, b, ID@) == Some(key.bytes@)
                &&& forall|larger: u8|
                    larger > b ==> #[trigger] program_address(
                        ESCROW_SEED@,
                        maker.bytes@,
                        s,
                        larger,
                        ID@,
                    ) is None
            };
        assert(is_escrow_address(maker, seed, key, b));
    }
    if is_escrow_address(maker, seed, key, bump) {
        let b = escrow_bump(maker, seed, key);
        assert(is_escrow_address(maker, seed, key, b));
        assert(program_address(ESCROW_SEED@, maker.bytes@, s, b, ID@) is Some);
        assert(program_address(ESCROW_SEED@, maker.bytes@, s, bump, ID@) is Some);
    }
}

/// Eight bytes that add up to the seed are its bytes.
proof fn lemma_seed_bytes(seed: u64, s: Seq<u8>)
    requires
        s.len() == 8,
        seed == s[0] + 0x100 * s[1] + 0x1_0000 * s[2] + 0x100_0000 * s[3] + 0x1_0000_0000 * s[4]
            + 0x100_0000_0000 * s[5] + 0x1_0000_0000_0000 * s[6] + 0x100_0000_0000_0000 * s[7],
    ensures
        s == spec_u64_to_le_bytes(seed),
{
    spec_u64_to_le_bytes_to_open(seed);
    let (a, b, c, d) = (s[0] as u64, s[1] as u64, s[2] as u64, s[3] as u64);
    let (e, f, g, h) = (s[4] as u64, s[5] as u64, s[6] as u64, s[7] as u64);
    assert(a == seed & 0xff && b == (seed >> 8) & 0xff && c == (seed >> 16) & 0xff && d == (seed
        >> 24) & 0xff && e == (seed >> 32) & 0xff && f == (seed >> 40) & 0xff && g == (seed >> 48)
        & 0xff && h == (seed >> 56) & 0xff) by (bit_vector)
        requires
            a < 256 && b < 256 && c < 256 && d < 256 && e < 256 && f < 256 && g < 256 && h < 256,
            seed == a + 0x100 * b + 0x1_0000 * c + 0x100_0000 * d + 0x1_0000_0000 * e
                + 0x100_0000_0000 * f + 0x1_0000_0000_0000 * g + 0x100_0000_0000_0000 * h,
    ;
    assert(s =~= spec_u64_to_le_bytes_open(seed));
}

/// What the program signs with are the seeds of the offer's address: the word
/// `escrow`, the maker, the whole of the seed and the bump. Two offers of a maker
/// with different seeds never share them.
pub proof fn law_signing_seeds(state: EscrowState, other: EscrowState, key: Address)
    ensures
        state.seeds().len() == 4,
        state.seeds()[0] == seq![101u8, 115u8, 99u8, 114u8, 111u8, 119u8],
        state.seeds()[1] == state.maker.bytes@,
        state.seeds()[2].len() == 8,
        ({
            let s = state.seeds()[2];
            state.seed == s[0] + 0x100 * s[1] + 0x1_0000 * s[2] + 0x100_0000 * s[3] + 0x1_0000_0000
                * s[4] + 0x100_0000_0000 * s[5] + 0x1_0000_0000_0000 * s[6] + 0x100_0000_0000_0000
                * s[7]
        }),
        state.seeds()[3] == seq![state.bump],
        state.seed != other.seed ==> state.seeds()[2] != other.seeds()[2],
        derives_escrow(state.maker, state.seed, state.bump, key) <==> program_address(
            state.seeds()[0],
            state.seeds()[1],
            state.seeds()[2],
            state.seeds()[3][0],
            ID@,
        ) == Some(key.bytes@),
        escrow_in_place(key, state) <==> program_address(
            state.seeds()[0],
            state.seeds()[1],
            state.seeds()[2],
            state.bump,
            ID@,
        ) == Some(key.bytes@),
{
    assert(ESCROW_SEED@ =~= seq![101u8, 115u8, 99u8, 114u8, 111u8, 119u8]);
    lemma_seed_value(state.seed);
    lemma_seed_value(other.seed);
}

/// The bytes of a seed add up to it.
proof fn lemma_seed_value(seed: u64)
    ensures
        spec_u64_to_le_bytes(seed).len() == 8,
        ({
            let s = spec_u64_to_le_bytes(seed);
            seed == s[0] + 0x100 * s[1] + 0x1_0000 * s[2] + 0x100_0000 * s[3] + 0x1_0000_0000 * s[4]
                + 0x100_0000_0000 * s[5] + 0x1_0000_0000_0000 * s[6] + 0x100_0000_0000_0000 * s[7]
        }),
{
    spec_u64_to_le_bytes_to_open(seed);
    assert(seed & 0xff < 256 && (seed >> 8) & 0xff < 256 && (seed >> 16) & 0xff < 256 && (seed
        >> 24) & 0xff < 256 && (seed >> 32) & 0xff < 256 && (seed >> 40) & 0xff < 256 && (seed
        >> 48) & 0xff < 256 && (seed >> 56) & 0xff < 256) by (bit_vector);
    assert(seed == (seed & 0xff) + 0x100 * ((seed >> 8) & 0xff) + 0x1_0000 * ((seed >> 16) & 0xff)
        + 0x100_0000 * ((seed >> 24) & 0xff) + 0x1_0000_0000 * ((seed >> 32) & 0xff)
        + 0x100_0000_0000 * ((seed >> 40) & 0xff) + 0x1_0000_0000_0000 * ((seed >> 48) & 0xff)
        + 0x100_0000_0000_0000 * ((seed >> 56) & 0xff)) by (bit_vector);
}

/// The associated token account of an owner for a mint is what the associated
/// token account program derives from the owner, the token program and the mint
/// with the largest bump that gives an address.
pub proof fn law_associated_is_derived(
    owner: Address,
    mint: Address,
    token_program: Address,
    key: Address,
)
    ensures
        is_associated(owner, mint, token_program, key) <==> exists|b: u8|
            {
                &&& b > 0
                &&& #[trigger] program_address(
                    owner.bytes@,
                    token_program.bytes@,
                    mint.bytes@,
                    b,
                    ASSOCIATED_TOKEN_PROGRAM@,
                ) == Some(key.bytes@)
                &&& forall|larger: u8|
                    larger > b ==> #[trigger] program_address(
                        owner.bytes@,
                        token_program.bytes@,
                        mint.bytes@,
                        larger,
                        ASSOCIATED_TOKEN_PROGRAM@,
                    ) is None
            },
{
    let (o, t, m) = (owner.bytes@, token_program.bytes@, mint.bytes@);
    let program = ASSOCIATED_TOKEN_PROGRAM@;
    if is_associated(owner, mint, token_program, key) {
        let b = choose|b: u8| #[trigger] is_canonical(o, t, m, program, key.bytes@, b);
        assert(program_address(o, t, m, b, program) == Some(key.bytes@));
    }
    if exists|b: u8|
        {
            &&& b > 0
            &&& #[trigger] program_address(o, t, m, b, program) == Some(key.bytes@)
            &&& forall|larger: u8|
                larger > b ==> #[trigger] program_address(o, t, m, larger, program) is None
        } {
        let b = choose|b: u8|
            {
                &&& b > 0
                &&& #[trigger] program_address(o, t, m, b, program) == Some(key.bytes@)
                &&& forall|larger: u8|
                    larger > b ==> #[trigger] program_address(o, t, m, larger, program) is None
            };
        assert(is_canonical(o, t, m, program, key.bytes@, b));
    }
}

/// SPL Token and Token-2022 are the token programs, and nothing else is.
pub proof fn law_token_programs(program: Address)
    ensures
        is_token_program(program) <==> program.bytes@ == TOKEN_PROGRAM@ || program.bytes@
            == TOKEN_2022_PROGRAM@,
{
}

/// What is at an address goes by who owns it. There is no account where the
/// system program owns the address, unless the account has to exist and lamports
/// lie there; otherwise the account is of the right kind just if its owner is.
pub proof fn law_standing(owner: Address, lamports: u64, can_create: bool, is_own: bool)
    ensures
        standing(owner, lamports, can_create, is_own) == Standing::Vacant <==> owner.bytes@
            == SYSTEM_PROGRAM@ && (can_create || lamports == 0),
        standing(owner, lamports, can_create, is_own) == Standing::Own <==> is_own && !(
        owner.bytes@ == SYSTEM_PROGRAM@ && (can_create || lamports == 0)),
        standing(owner, lamports, can_create, is_own) == Standing::Foreign <==> !is_own && !(
        owner.bytes@ == SYSTEM_PROGRAM@ && (can_create || lamports == 0)),
{
}

/// An account that must exist and does not is missing, unless one of another
/// kind is in its place. An address can be used for a new account just if there
/// is neither.
pub proof fn law_absence(mint: Slot<Mint>, token: Slot<TokenAccount>, escrow: Slot<EscrowState>)
    ensures
        mint.absence() == (if mint.is_foreign {
            Error::AccountOwnedByWrongProgram
        } else {
            Error::AccountNotInitialized
        }),
        token.absence() == (if token.is_foreign {
            Error::AccountOwnedByWrongProgram
        } else {
            Error::AccountNotInitialized
        }),
        escrow.absence() == (if escrow.is_foreign {
            Error::AccountOwnedByWrongProgram
        } else {
            Error::AccountNotInitialized
        }),
        token.vacant() <==> token.data is None && !token.is_foreign,
        escrow.vacant() <==> escrow.data is None && !escrow.is_foreign,
{
}

/// An offer is live at every instant before its deadline and at no other. A
/// repricing changes the two halves of the price and nothing else.
pub proof fn law_terms(state: EscrowState, now: i64, mint_b: Address, receive: u64)
    ensures
        state.live(now) <==> now < state.deadline,
        state.well_formed() <==> state.receive > 0,
        state.repriced(mint_b, receive).mint_b == mint_b,
        state.repriced(mint_b, receive).receive == receive,
        state.repriced(mint_b, receive).seed == state.seed,
        state.repriced(mint_b, receive).maker == state.maker,
        state.repriced(mint_b, receive).mint_a == state.mint_a,
        state.repriced(mint_b, receive).deadline == state.deadline,
        state.repriced(mint_b, receive).bump == state.bump,
{
}

/// A client tells the escrow's own refusals apart by their numbers, which follow
/// one another.
pub proof fn law_error_codes(e: EscrowError, f: EscrowError)
    ensures
        e.spec_code() == f.spec_code() <==> e == f,
        6000 <= e.spec_code() < 6003,
        e == EscrowError::DeadlineInPast <==> e.spec_code() == 6000,
        e == EscrowError::EscrowExpired <==> e.spec_code() == 6001,
        e == EscrowError::TermsChanged <==> e.spec_code() == 6002,
        e == EscrowError::DeadlineInPast ==> e.spec_message() == "Deadline must be in the future"@,
        e == EscrowError::EscrowExpired ==> e.spec_message()
            == "This escrow has expired and can only be refunded"@,
        e == EscrowError::TermsChanged ==> e.spec_message()
            == "Escrow terms changed since you read them"@,
{
}

} // verus!
