# Escrow

A two-party token swap. The maker locks token A in a vault and names a price in
token B. Anyone who pays that price before the deadline gets the deposit; until
someone does, the maker can reprice the offer or walk away with the tokens.

- `src/` is the verified library. Each instruction reads the accounts it is
  given, decides, and returns the effects that the runtime is to carry out.
  - `lib.rs`: `make`, `take`, `refund`, `update`, and `check_update` for what an
    update is refused for before the clock is read.
  - `instructions/`: the demands of each instruction on its accounts, and its
    parts.
  - `accounts.rs`, `address.rs`, `state.rs`, `effect.rs`, `error.rs`,
    `constants.rs`: what they are made of. `address.rs` derives addresses
    through `Pubkey` of `anchor-lang`.
  - `chain.rs`: what effects do to a ledger, as a specification.
  - `laws/`: what holds of the escrow as a whole, proved.
- `tests/` runs the library on a ledger in memory.
- `app/` is the Solana program: it reads accounts and the clock, calls the
  library, and carries out the effects.
