//! Addresses, errors and terms.

use anchor_lang::prelude::Pubkey;
use escrow::address::{
    associated_token_address, create_escrow_address, find_escrow_address, Address,
};
use escrow::constants::{ESCROW_SEED, ID, TOKEN_2022_PROGRAM, TOKEN_PROGRAM};
use escrow::error::{Error, EscrowError};
use escrow::state::EscrowState;
use std::str::FromStr;

fn address(byte: u8) -> Address {
    Address { bytes: [byte; 32] }
}

fn state(deadline: i64) -> EscrowState {
    EscrowState {
        seed: 0x0102_0304_0506_0708,
        maker: address(1),
        mint_a: address(2),
        mint_b: address(3),
        receive: 5,
        deadline,
        bump: 254,
    }
}

#[test]
fn the_program_lives_at_its_address() {
    let id = Pubkey::from_str("7cCT3NJUCV61oZkSpJvcH6d3nWaZsVjYW1YzwVoXGmLK").unwrap();
    assert_eq!(ID, id.to_bytes());
    assert_eq!(&ESCROW_SEED, b"escrow");
}

#[test]
fn the_escrow_address_is_the_canonical_one() {
    for seed in [0u64, 1, 42, u64::MAX] {
        let maker = address(7);
        let (key, bump) = find_escrow_address(&maker, seed).unwrap();
        let (wanted, canonical) = Pubkey::find_program_address(
            &[b"escrow".as_ref(), maker.bytes.as_ref(), &seed.to_le_bytes()],
            &Pubkey::new_from_array(ID),
        );
        assert_eq!(key.bytes, wanted.to_bytes());
        assert_eq!(bump, canonical);
        assert_eq!(create_escrow_address(&maker, seed, bump), Some(key));
    }
}

#[test]
fn another_bump_gives_another_address_or_none() {
    let maker = address(7);
    let (key, bump) = find_escrow_address(&maker, 42).unwrap();
    for larger in (bump as u16 + 1)..256 {
        assert_eq!(create_escrow_address(&maker, 42, larger as u8), None);
    }
    assert_ne!(create_escrow_address(&maker, 42, bump - 1), Some(key));
}

#[test]
fn seeds_and_makers_have_escrows_of_their_own() {
    let one = find_escrow_address(&address(7), 1).unwrap().0;
    let two = find_escrow_address(&address(7), 2).unwrap().0;
    let other = find_escrow_address(&address(8), 1).unwrap().0;
    assert_ne!(one, two);
    assert_ne!(one, other);
    assert_ne!(one, address(7));
}

#[test]
fn the_associated_address_is_the_real_one() {
    for program in [TOKEN_PROGRAM, TOKEN_2022_PROGRAM] {
        let (owner, mint) = (address(4), address(9));
        let token_program = Address { bytes: program };
        let wanted = anchor_spl::associated_token::get_associated_token_address_with_program_id(
            &Pubkey::new_from_array(owner.bytes),
            &Pubkey::new_from_array(mint.bytes),
            &Pubkey::new_from_array(program),
        );
        let got = associated_token_address(&owner, &mint, &token_program).unwrap();
        assert_eq!(got.bytes, wanted.to_bytes());
        assert_ne!(associated_token_address(&mint, &owner, &token_program), Some(got));
    }
}

#[test]
fn addresses_differ_in_any_byte() {
    for i in 0..32 {
        let mut other = address(1);
        other.bytes[i] = 2;
        assert_ne!(other, address(1));
    }
    assert_eq!(address(1), address(1));
}

#[test]
fn an_offer_dies_at_its_deadline() {
    assert!(state(100).is_live(99));
    assert!(!state(100).is_live(100));
    assert!(!state(100).is_live(101));
    assert!(state(i64::MAX).is_live(i64::MAX - 1));
    assert!(!state(i64::MIN).is_live(i64::MIN));
}

#[test]
fn the_signer_seeds_are_spelled_out() {
    let seeds = state(0).signer_seeds();
    assert_eq!(
        seeds,
        vec![b"escrow".to_vec(), vec![1u8; 32], vec![8, 7, 6, 5, 4, 3, 2, 1], vec![254]]
    );
}

#[test]
fn errors_have_their_codes_and_messages() {
    let base = anchor_lang::error::ERROR_CODE_OFFSET;
    assert_eq!(EscrowError::DeadlineInPast.code(), base);
    assert_eq!(EscrowError::EscrowExpired.code(), base + 1);
    assert_eq!(EscrowError::TermsChanged.code(), base + 2);
    assert_eq!(EscrowError::TermsChanged.code(), 6002);
    assert_eq!(EscrowError::DeadlineInPast.message(), "Deadline must be in the future");
    assert_eq!(
        EscrowError::EscrowExpired.message(),
        "This escrow has expired and can only be refunded"
    );
    assert_eq!(EscrowError::TermsChanged.message(), "Escrow terms changed since you read them");
    assert_ne!(Error::Escrow(EscrowError::TermsChanged), Error::ConstraintHasOne);
}
