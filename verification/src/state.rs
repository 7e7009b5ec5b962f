//! The terms of an offer.

use crate::address::Address;
use crate::constants::ESCROW_SEED;
use vstd::bytes::*;
use vstd::prelude::*;
use vstd::slice::slice_to_vec;

verus! {

/// The terms of an open offer. The deposit is not among them: the balance of
/// the vault is the deposit.
#[derive(Clone, Copy, Debug)]
pub struct EscrowState {
    /// Chosen by the maker, who can so run several offers at once.
    pub seed: u64,
    pub maker: Address,
    /// Mint of the deposit.
    pub mint_a: Address,
    /// Mint of the price.
    pub mint_b: Address,
    /// The price.
    pub receive: u64,
    /// The first instant, in seconds of Unix time, at which the offer is dead.
    pub deadline: i64,
    /// The canonical bump of the escrow's address.
    pub bump: u8,
}

impl EscrowState {
    /// An offer never asks for nothing.
    pub open spec fn well_formed(self) -> bool {
        self.receive > 0
    }

    /// Whether the offer can still be taken or repriced at `now`.
    pub open spec fn live(self, now: i64) -> bool {
        self.deadline > now
    }

    /// The same offer at another price.
    pub open spec fn repriced(self, mint_b: Address, receive: u64) -> EscrowState {
        EscrowState { mint_b, receive, ..self }
    }

    /// The seeds with which the program signs for the escrow at its address.
    pub open spec fn seeds(self) -> Seq<Seq<u8>> {
        seq![
            ESCROW_SEED@,
            self.maker.bytes@,
            spec_u64_to_le_bytes(self.seed),
            seq![self.bump],
        ]
    }

    /// Whether the offer can still be taken or repriced at `now`.
    pub fn is_live(&self, now: i64) -> (r: bool)
        ensures
            r == self.live(now),
    {
        self.deadline > now
    }

    /// The seeds with which the program signs for the escrow at its address.
    pub fn signer_seeds(&self) -> (r: Vec<Vec<u8>>)
        ensures
            r@.map_values(|seed: Vec<u8>| seed@) == self.seeds(),
    {
        let mut bump: Vec<u8> = Vec::new();
        bump.push(self.bump);
        let mut seeds: Vec<Vec<u8>> = Vec::new();
        seeds.push(slice_to_vec(ESCROW_SEED.as_slice()));
        seeds.push(slice_to_vec(self.maker.bytes.as_slice()));
        seeds.push(u64_to_le_bytes(self.seed));
        seeds.push(bump);
        assert(bump@ =~= seq![self.bump]);
        assert(seeds@.map_values(|seed: Vec<u8>| seed@) =~= self.seeds());
        seeds
    }
}

} // verus!
