//! That no token is made or lost.

use crate::accounts::TokenAccount;
use crate::address::Address;
use crate::chain::{Chain, Rent};
use crate::effect::{Effect, TransferChecked};
use vstd::prelude::*;

verus! {

/// The tokens of `mint` in one account.
pub open spec fn share(token: TokenAccount, mint: Address) -> int {
    if token.mint == mint {
        token.amount as int
    } else {
        0
    }
}

/// The tokens of `mint` in all accounts together.
pub open spec fn supply(tokens: Map<Address, TokenAccount>, mint: Address) -> int
    decreases tokens.dom().len(),
    when tokens.dom().finite()
{
    if tokens.dom().is_empty() {
        0
    } else {
        let k = tokens.dom().choose();
        share(tokens[k], mint) + supply(tokens.remove(k), mint)
    }
}

/// Whether there are finitely many token accounts, and the tokens of any one
/// mint fit one account: no mint can issue more.
pub open spec fn issued(chain: Chain) -> bool {
    &&& chain.tokens.dom().finite()
    &&& forall|mint: Address| #[trigger] supply(chain.tokens, mint) <= u64::MAX
}

/// The tokens are those of any one account and those of the others.
proof fn lemma_supply_remove(tokens: Map<Address, TokenAccount>, mint: Address, k: Address)
    requires
        tokens.dom().finite(),
        tokens.dom().contains(k),
    ensures
        supply(tokens, mint) == share(tokens[k], mint) + supply(tokens.remove(k), mint),
    decreases tokens.dom().len(),
{
    let c = tokens.dom().choose();
    assert(tokens.dom().contains(c));
    if c != k {
        let without_c = tokens.remove(c);
        let without_k = tokens.remove(k);
        lemma_supply_remove(without_c, mint, k);
        lemma_supply_remove(without_k, mint, c);
        assert(without_c.remove(k) =~= without_k.remove(c));
    }
}

/// The tokens once the account at `k` is another one.
proof fn lemma_supply_insert(
    tokens: Map<Address, TokenAccount>,
    mint: Address,
    k: Address,
    token: TokenAccount,
)
    requires
        tokens.dom().finite(),
    ensures
        tokens.insert(k, token).dom().finite(),
        supply(tokens.insert(k, token), mint) == supply(tokens, mint) + share(token, mint) - (
        if tokens.dom().contains(k) {
            share(tokens[k], mint)
        } else {
            0
        }),
{
    let inserted = tokens.insert(k, token);
    lemma_supply_remove(inserted, mint, k);
    if tokens.dom().contains(k) {
        lemma_supply_remove(tokens, mint, k);
        assert(inserted.remove(k) =~= tokens.remove(k));
    } else {
        assert(inserted.remove(k) =~= tokens);
    }
}

/// There are never fewer than no tokens.
proof fn lemma_supply_nonnegative(tokens: Map<Address, TokenAccount>, mint: Address)
    requires
        tokens.dom().finite(),
    ensures
        supply(tokens, mint) >= 0,
    decreases tokens.dom().len(),
{
    if !tokens.dom().is_empty() {
        let k = tokens.dom().choose();
        assert(tokens.dom().contains(k));
        lemma_supply_nonnegative(tokens.remove(k), mint);
    }
}

/// What two accounts of one mint hold fits one account.
pub(crate) proof fn lemma_two_accounts_fit(chain: Chain, a: Address, b: Address)
    requires
        issued(chain),
        chain.token(a) is Some,
        chain.token(b) is Some,
        chain.tokens[a].mint == chain.tokens[b].mint,
        a != b,
    ensures
        chain.amount(a) + chain.amount(b) <= u64::MAX,
{
    let mint = chain.tokens[a].mint;
    lemma_supply_remove(chain.tokens, mint, a);
    lemma_supply_remove(chain.tokens.remove(a), mint, b);
    lemma_supply_nonnegative(chain.tokens.remove(a).remove(b), mint);
    assert(supply(chain.tokens, mint) <= u64::MAX);
}

/// One effect neither makes nor loses a token of any mint.
pub(crate) proof fn lemma_apply_keeps_supply(chain: Chain, effect: Effect, rent: Rent, after: Chain)
    requires
        chain.tokens.dom().finite(),
        chain.apply(effect, rent) == Some(after),
    ensures
        after.tokens.dom().finite(),
        forall|mint: Address| #[trigger]
            supply(after.tokens, mint) == supply(chain.tokens, mint),
{
    assert forall|mint: Address| #[trigger]
        supply(after.tokens, mint) == supply(chain.tokens, mint) by {
        match effect {
            Effect::CreateTokenAccount(c) => {
                let token = TokenAccount {
                    mint: c.mint,
                    owner: c.owner,
                    amount: 0,
                    token_program: c.token_program,
                };
                lemma_supply_insert(chain.tokens, mint, c.address, token);
            },
            Effect::CloseTokenAccount(c) => {
                lemma_supply_remove(chain.tokens, mint, c.address);
            },
            Effect::TransferChecked(t) => {
                lemma_transfer_keeps_supply(chain, t, mint);
            },
            _ => {},
        }
    }
}

proof fn lemma_transfer_keeps_supply(chain: Chain, t: TransferChecked, mint: Address)
    requires
        chain.tokens.dom().finite(),
        chain.can_transfer(t),
    ensures
        supply(chain.transferred(t), mint) == supply(chain.tokens, mint),
{
    if t.from != t.to {
        let from = chain.tokens[t.from];
        let to = chain.tokens[t.to];
        let less = TokenAccount { amount: (from.amount - t.amount) as u64, ..from };
        let more = TokenAccount { amount: (to.amount + t.amount) as u64, ..to };
        lemma_supply_insert(chain.tokens, mint, t.from, less);
        lemma_supply_insert(chain.tokens.insert(t.from, less), mint, t.to, more);
    }
}

/// No list of effects makes or loses a token of any mint.
pub proof fn law_effects_keep_supply(chain: Chain, effects: Seq<Effect>, rent: Rent, after: Chain)
    requires
        chain.tokens.dom().finite(),
        chain.run(effects, rent) == Some(after),
    ensures
        after.tokens.dom().finite(),
        forall|mint: Address| #[trigger]
            supply(after.tokens, mint) == supply(chain.tokens, mint),
        issued(chain) ==> issued(after),
    decreases effects.len(),
{
    if effects.len() > 0 {
        let next = chain.apply(effects[0], rent)->0;
        lemma_apply_keeps_supply(chain, effects[0], rent, next);
        law_effects_keep_supply(next, effects.drop_first(), rent, after);
    }
}

} // verus!
