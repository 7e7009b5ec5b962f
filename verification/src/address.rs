//! Account addresses and how the program derives them.

use crate::constants::{ASSOCIATED_TOKEN_PROGRAM, ESCROW_SEED, ID};
use vstd::bytes::*;
use vstd::prelude::*;

verus! {

/// The address of an account.
#[derive(Clone, Copy, Debug, Hash)]
pub struct Address {
    pub bytes: [u8; 32],
}

impl PartialEq for Address {
    fn eq(&self, other: &Self) -> (r: bool) {
        let mut i: usize = 0;
        while i < 32
            invariant
                i <= 32,
                forall|j: int| 0 <= j < i ==> self.bytes[j] == other.bytes[j],
            decreases 32 - i,
        {
            if self.bytes[i] != other.bytes[i] {
                return false;
            }
            i = i + 1;
        }
        proof {
            assert(self.bytes =~= other.bytes);
        }
        true
    }
}

impl vstd::std_specs::cmp::PartialEqSpecImpl for Address {
    open spec fn obeys_eq_spec() -> bool {
        true
    }

    open spec fn eq_spec(&self, other: &Self) -> bool {
        *self == *other
    }
}

impl Eq for Address {

}

/// Two addresses with the same bytes are the same address.
pub proof fn lemma_address_from_bytes(a: Address, b: Address)
    requires
        a.bytes@ == b.bytes@,
    ensures
        a == b,
{
    assert forall|i: int| 0 <= i < 32 implies a.bytes[i] == b.bytes[i] by {
        assert(a.bytes@[i] == b.bytes@[i]);
    }
    assert(a.bytes =~= b.bytes);
}

/// The address that `program` derives from three seeds and a bump, if those
/// seeds give one.
pub uninterp spec fn program_address(
    first: Seq<u8>,
    second: Seq<u8>,
    third: Seq<u8>,
    bump: u8,
    program: Seq<u8>,
) -> Option<Seq<u8>>;

/// Whether `bump` is the canonical bump of the seeds, and `address` what they
/// derive with it: every larger bump gives no address. Zero is never tried.
pub open spec fn is_canonical(
    first: Seq<u8>,
    second: Seq<u8>,
    third: Seq<u8>,
    program: Seq<u8>,
    address: Seq<u8>,
    bump: u8,
) -> bool {
    &&& bump > 0
    &&& program_address(first, second, third, bump, program) == Some(address)
    &&& forall|larger: u8|
        larger > bump ==> #[trigger] program_address(first, second, third, larger, program) is None
}

/// Whether no bump makes the seeds give an address.
pub open spec fn has_no_bump(
    first: Seq<u8>,
    second: Seq<u8>,
    third: Seq<u8>,
    program: Seq<u8>,
) -> bool {
    forall|bump: u8|
        bump > 0 ==> #[trigger] program_address(first, second, third, bump, program) is None
}

/// Calls `Pubkey::create_program_address` with the three seeds and the bump as
/// a fourth. What it returns is a function of its arguments, named
/// `program_address`; its error says only that there is no address.
#[verifier::external_body]
fn create_program_address(
    first: &[u8],
    second: &[u8],
    third: &[u8],
    bump: u8,
    program: &[u8; 32],
) -> (r: Option<[u8; 32]>)
    ensures
        r is Some <==> program_address(first@, second@, third@, bump, program@) is Some,
        r matches Some(bytes) ==> program_address(first@, second@, third@, bump, program@) == Some(
            bytes@,
        ),
{
    let program_id = anchor_lang::prelude::Pubkey::new_from_array(*program);
    let seeds: &[&[u8]] = &[first, second, third, &[bump]];
    match anchor_lang::prelude::Pubkey::create_program_address(seeds, &program_id) {
        Ok(key) => Some(key.to_bytes()),
        Err(_) => None,
    }
}

/// Calls `Pubkey::try_find_program_address`, which tries
/// `create_program_address` with the bumps from 255 down to 1 and returns the
/// first address it gets with its bump, or nothing when no bump gives one.
#[verifier::external_body]
fn find_program_address(
    first: &[u8],
    second: &[u8],
    third: &[u8],
    program: &[u8; 32],
) -> (r: Option<([u8; 32], u8)>)
    ensures
        match r {
            Some((bytes, bump)) => is_canonical(first@, second@, third@, program@, bytes@, bump),
            None => has_no_bump(first@, second@, third@, program@),
        },
{
    let program_id = anchor_lang::prelude::Pubkey::new_from_array(*program);
    let seeds: &[&[u8]] = &[first, second, third];
    match anchor_lang::prelude::Pubkey::try_find_program_address(seeds, &program_id) {
        Some((key, bump)) => Some((key.to_bytes(), bump)),
        None => None,
    }
}

/// Whether the seeds of an offer, with `bump`, derive the address `key`.
pub open spec fn derives_escrow(maker: Address, seed: u64, bump: u8, key: Address) -> bool {
    program_address(ESCROW_SEED@, maker.bytes@, spec_u64_to_le_bytes(seed), bump, ID@) == Some(
        key.bytes@,
    )
}

/// Whether `key` is where the offer of `maker` with `seed` lives, and `bump`
/// its canonical bump.
pub open spec fn is_escrow_address(maker: Address, seed: u64, key: Address, bump: u8) -> bool {
    is_canonical(ESCROW_SEED@, maker.bytes@, spec_u64_to_le_bytes(seed), ID@, key.bytes@, bump)
}

/// The canonical bump of the offer of `maker` with `seed`, which lives at `key`.
pub open spec fn escrow_bump(maker: Address, seed: u64, key: Address) -> u8 {
    choose|bump: u8| #[trigger] is_escrow_address(maker, seed, key, bump)
}

/// Whether `key` is where the offer of `maker` with `seed` lives.
pub open spec fn is_escrow(maker: Address, seed: u64, key: Address) -> bool {
    exists|bump: u8| #[trigger] is_escrow_address(maker, seed, key, bump)
}

/// Whether `key` is the associated token account of `owner` for `mint`.
pub open spec fn is_associated(
    owner: Address,
    mint: Address,
    token_program: Address,
    key: Address,
) -> bool {
    exists|bump: u8| #[trigger]
        is_canonical(
            owner.bytes@,
            token_program.bytes@,
            mint.bytes@,
            ASSOCIATED_TOKEN_PROGRAM@,
            key.bytes@,
            bump,
        )
}

/// The address that the seeds of an offer derive with `bump`, if they do.
pub fn create_escrow_address(maker: &Address, seed: u64, bump: u8) -> (r: Option<Address>)
    ensures
        match r {
            Some(key) => derives_escrow(*maker, seed, bump, key),
            None => forall|key: Address| !derives_escrow(*maker, seed, bump, key),
        },
{
    let seed_bytes = u64_to_le_bytes(seed);
    match create_program_address(
        ESCROW_SEED.as_slice(),
        maker.bytes.as_slice(),
        seed_bytes.as_slice(),
        bump,
        &ID,
    ) {
        Some(bytes) => Some(Address { bytes }),
        None => None,
    }
}

/// Where the offer of `maker` with `seed` lives, and its canonical bump.
pub fn find_escrow_address(maker: &Address, seed: u64) -> (r: Option<(Address, u8)>)
    ensures
        match r {
            Some((key, bump)) => is_escrow_address(*maker, seed, key, bump),
            None => forall|key: Address, bump: u8| !is_escrow_address(*maker, seed, key, bump),
        },
{
    let seed_bytes = u64_to_le_bytes(seed);
    match find_program_address(
        ESCROW_SEED.as_slice(),
        maker.bytes.as_slice(),
        seed_bytes.as_slice(),
        &ID,
    ) {
        Some((bytes, bump)) => Some((Address { bytes }, bump)),
        None => None,
    }
}

/// The associated token account of `owner` for `mint`: what the associated
/// token account program derives from the owner, the token program and the
/// mint.
pub fn associated_token_address(
    owner: &Address,
    mint: &Address,
    token_program: &Address,
) -> (r: Option<Address>)
    ensures
        match r {
            Some(key) => is_associated(*owner, *mint, *token_program, key),
            None => forall|key: Address| !is_associated(*owner, *mint, *token_program, key),
        },
{
    match find_program_address(
        owner.bytes.as_slice(),
        token_program.bytes.as_slice(),
        mint.bytes.as_slice(),
        &ASSOCIATED_TOKEN_PROGRAM,
    ) {
        Some((bytes, bump)) => {
            let key = Address { bytes };
            assert(is_canonical(
                owner.bytes@,
                token_program.bytes@,
                mint.bytes@,
                ASSOCIATED_TOKEN_PROGRAM@,
                key.bytes@,
                bump,
            ));
            Some(key)
        },
        None => None,
    }
}

/// An owner has one associated token account for a mint under a token program.
pub proof fn lemma_associated_unique(
    owner: Address,
    mint: Address,
    token_program: Address,
    a: Address,
    b: Address,
)
    requires
        is_associated(owner, mint, token_program, a),
        is_associated(owner, mint, token_program, b),
    ensures
        a == b,
{
    let (s1, s2, s3) = (owner.bytes@, token_program.bytes@, mint.bytes@);
    let program = ASSOCIATED_TOKEN_PROGRAM@;
    let p = choose|bump: u8| #[trigger] is_canonical(s1, s2, s3, program, a.bytes@, bump);
    let q = choose|bump: u8| #[trigger] is_canonical(s1, s2, s3, program, b.bytes@, bump);
    assert(p == q) by {
        assert(program_address(s1, s2, s3, p, program) is Some);
        assert(program_address(s1, s2, s3, q, program) is Some);
    }
    lemma_address_from_bytes(a, b);
}

/// A maker has one escrow for a seed, with one canonical bump.
pub proof fn lemma_escrow_address_unique(
    maker: Address,
    seed: u64,
    a: Address,
    p: u8,
    b: Address,
    q: u8,
)
    requires
        is_escrow_address(maker, seed, a, p),
        is_escrow_address(maker, seed, b, q),
    ensures
        a == b,
        p == q,
{
    let s = spec_u64_to_le_bytes(seed);
    assert(p == q) by {
        assert(program_address(ESCROW_SEED@, maker.bytes@, s, p, ID@) is Some);
        assert(program_address(ESCROW_SEED@, maker.bytes@, s, q, ID@) is Some);
    }
    lemma_address_from_bytes(a, b);
}

} // verus!
