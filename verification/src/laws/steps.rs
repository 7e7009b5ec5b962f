//! What each instruction does to the chain.

use crate::accounts::TokenAccount;
use crate::address::{is_escrow_address, Address};
use crate::chain::{Chain, Rent};
use crate::effect::{creation_effects, CreateTokenAccount, Effect, TransferChecked};
use crate::instructions::make::MakeAccounts;
use crate::instructions::refund::{Refund, RefundAccounts};
use crate::instructions::take::{Take, TakeAccounts};
use crate::instructions::update::UpdateAccounts;
use crate::made_state;
use vstd::prelude::*;

verus! {

/// A `make` that goes through records the terms at the offer's own address,
/// puts exactly the deposit into the vault, takes exactly the deposit from the
/// maker, and touches no other escrow and no other token account.
pub proof fn law_make(
    chain: Chain,
    a: MakeAccounts,
    seed: u64,
    receive: u64,
    deposit: u64,
    deadline: i64,
    now: i64,
    rent: Rent,
    after: Chain,
)
    requires
        chain.shows_make(a),
        chain.after_make(a, seed, receive, deposit, deadline, now, rent) == Some(after),
    ensures
        after.escrows == chain.escrows.insert(
            a.escrow.key,
            made_state(a, seed, receive, deadline),
        ),
        made_state(a, seed, receive, deadline).well_formed(),
        made_state(a, seed, receive, deadline).live(now),
        is_escrow_address(
            a.maker.key,
            seed,
            a.escrow.key,
            made_state(a, seed, receive, deadline).bump,
        ),
        after.token(a.vault.key) == Some(
            TokenAccount {
                mint: a.mint_a.key,
                owner: a.escrow.key,
                amount: deposit,
                token_program: a.token_program,
            },
        ),
        after.token(a.maker_ata_a.key) == Some(
            TokenAccount {
                amount: (chain.amount(a.maker_ata_a.key) - deposit) as u64,
                ..chain.tokens[a.maker_ata_a.key]
            },
        ),
        after.amount(a.maker_ata_a.key) == chain.amount(a.maker_ata_a.key) - deposit,
        forall|k: Address|
            k != a.vault.key && k != a.maker_ata_a.key ==> #[trigger] after.token(k) == chain.token(
                k,
            ),
        after.mints == chain.mints,
        after.others == chain.others,
{
    reveal_with_fuel(Chain::run, 4);
    let valid = a.accepted();
    let state = made_state(a, seed, receive, deadline);
    let effects = valid.effects(state, deposit);
    let c1 = chain.apply(effects[0], rent)->0;
    let c2 = c1.apply(effects[1], rent)->0;
    assert(effects.drop_first()[0] == effects[1]);
    assert(effects.drop_first().drop_first()[0] == effects[2]);
    assert(after == c2.apply(effects[2], rent)->0);
}

/// Running one list of effects after another is running both.
pub(crate) proof fn lemma_run_add(chain: Chain, s: Seq<Effect>, t: Seq<Effect>, rent: Rent)
    ensures
        chain.run(s + t, rent) == match chain.run(s, rent) {
            Some(next) => next.run(t, rent),
            None => None,
        },
    decreases s.len(),
{
    if s.len() == 0 {
        assert(s + t =~= t);
    } else {
        assert((s + t).drop_first() =~= s.drop_first() + t);
        if let Some(next) = chain.apply(s[0], rent) {
            lemma_run_add(next, s.drop_first(), t, rent);
        }
    }
}

/// Whether `after` is `chain` with the token account created, if there is one to
/// create. No tokens move.
pub(crate) open spec fn is_created(
    chain: Chain,
    creation: Option<CreateTokenAccount>,
    rent: Rent,
    after: Chain,
) -> bool {
    &&& after.escrows == chain.escrows
    &&& after.mints == chain.mints
    &&& after.others == chain.others
    &&& match creation {
        None => after == chain,
        Some(c) => {
            &&& chain.apply(Effect::CreateTokenAccount(c), rent) == Some(after)
            &&& chain.token(c.address) is None
            &&& after.tokens == chain.tokens.insert(
                c.address,
                TokenAccount {
                    mint: c.mint,
                    owner: c.owner,
                    amount: 0,
                    token_program: c.token_program,
                },
            )
        },
    }
    &&& forall|k: Address| #[trigger] after.amount(k) == chain.amount(k)
    &&& forall|k: Address| chain.token(k) is Some ==> #[trigger] after.token(k) == chain.token(k)
}

/// Creating a token account that does not exist moves no tokens.
proof fn lemma_run_creation(
    chain: Chain,
    creation: Option<CreateTokenAccount>,
    rent: Rent,
    after: Chain,
)
    requires
        chain.run(creation_effects(creation), rent) == Some(after),
    ensures
        is_created(chain, creation, rent, after),
{
    reveal_with_fuel(Chain::run, 2);
}

/// Whether `after` is `chain` with the amount taken from one account and added
/// to the other, and nothing else changed.
pub(crate) open spec fn is_transferred(chain: Chain, t: TransferChecked, after: Chain) -> bool {
    &&& after.escrows == chain.escrows
    &&& after.mints == chain.mints
    &&& after.others == chain.others
    &&& after.lamports == chain.lamports
    &&& after.tokens.dom() == chain.tokens.dom()
    &&& chain.token(t.from) is Some
    &&& chain.token(t.to) is Some
    &&& chain.amount(t.from) >= t.amount
    &&& forall|k: Address| #[trigger]
        after.amount(k) == chain.amount(k) + (if k == t.to {
            t.amount as int
        } else {
            0
        }) - (if k == t.from {
            t.amount as int
        } else {
            0
        })
    &&& forall|k: Address|
        k != t.from && k != t.to ==> #[trigger] after.token(k) == chain.token(k)
    &&& forall|k: Address| #[trigger]
        after.tokens.dom().contains(k) ==> {
            &&& after.tokens[k].owner == chain.tokens[k].owner
            &&& after.tokens[k].mint == chain.tokens[k].mint
            &&& after.tokens[k].token_program == chain.tokens[k].token_program
        }
}

/// A transfer takes the amount from one account and adds it to the other, and
/// changes nothing else.
pub(crate) proof fn lemma_transfer(chain: Chain, t: TransferChecked, rent: Rent, after: Chain)
    requires
        chain.apply(Effect::TransferChecked(t), rent) == Some(after),
    ensures
        is_transferred(chain, t, after),
{
    assert(after.tokens.dom() =~= chain.tokens.dom());
}

/// The chains between four effects.
proof fn lemma_run_four(chain: Chain, effects: Seq<Effect>, rent: Rent, after: Chain) -> (r: (
    Chain,
    Chain,
    Chain,
))
    requires
        effects.len() == 4,
        chain.run(effects, rent) == Some(after),
    ensures
        chain.apply(effects[0], rent) == Some(r.0),
        r.0.apply(effects[1], rent) == Some(r.1),
        r.1.apply(effects[2], rent) == Some(r.2),
        r.2.apply(effects[3], rent) == Some(after),
{
    let s1 = effects.drop_first();
    let s2 = s1.drop_first();
    let s3 = s2.drop_first();
    let s4 = s3.drop_first();
    let c1 = chain.apply(effects[0], rent)->0;
    let c2 = c1.apply(s1[0], rent)->0;
    let c3 = c2.apply(s2[0], rent)->0;
    assert(c1.run(s1, rent) == Some(after));
    assert(c2.run(s2, rent) == Some(after));
    assert(c3.run(s3, rent) == Some(after));
    assert(s4.len() == 0);
    assert(c3.apply(s3[0], rent)->0.run(s4, rent) == Some(after));
    (c1, c2, c3)
}

/// The chains around the two creations with which a `take` begins.
pub(crate) proof fn lemma_take_creations(chain: Chain, valid: Take, rent: Rent) -> (r: (
    Chain,
    Chain,
))
    requires
        chain.run(
            creation_effects(valid.creation_a()) + creation_effects(valid.creation_b()),
            rent,
        ) is Some,
    ensures
        is_created(chain, valid.creation_a(), rent, r.0),
        is_created(r.0, valid.creation_b(), rent, r.1),
        chain.run(
            creation_effects(valid.creation_a()) + creation_effects(valid.creation_b()),
            rent,
        ) == Some(r.1),
        chain.run(valid.effects(), rent) == r.1.run(valid.swap(), rent),
{
    let s = creation_effects(valid.creation_a());
    let t = creation_effects(valid.creation_b());
    lemma_run_add(chain, s + t, valid.swap(), rent);
    lemma_run_add(chain, s, t, rent);
    let c1 = chain.run(s, rent)->0;
    let c2 = c1.run(t, rent)->0;
    lemma_run_creation(chain, valid.creation_a(), rent, c1);
    lemma_run_creation(c1, valid.creation_b(), rent, c2);
    (c1, c2)
}

/// The chains between the effects of a `take`: after the first creation, after
/// the second, after the payment, after the withdrawal and after the vault is
/// closed.
pub(crate) proof fn lemma_take_chains(chain: Chain, valid: Take, rent: Rent, after: Chain) -> (r: (
    Chain,
    Chain,
    Chain,
    Chain,
    Chain,
))
    requires
        chain.run(valid.effects(), rent) == Some(after),
    ensures
        is_created(chain, valid.creation_a(), rent, r.0),
        is_created(r.0, valid.creation_b(), rent, r.1),
        is_transferred(r.1, valid.payment(), r.2),
        is_transferred(r.2, valid.withdrawal(), r.3),
        r.3.apply(Effect::CloseTokenAccount(valid.vault_closing()), rent) == Some(r.4),
        r.4.apply(
            Effect::CloseEscrow { address: valid.escrow.key, destination: valid.maker },
            rent,
        ) == Some(after),
{
    let s = creation_effects(valid.creation_a());
    let t = creation_effects(valid.creation_b());
    lemma_run_add(chain, s + t, valid.swap(), rent);
    let (c1, c2) = lemma_take_creations(chain, valid, rent);
    let (c3, c4, c5) = lemma_run_four(c2, valid.swap(), rent, after);
    lemma_transfer(c2, valid.payment(), rent, c3);
    lemma_transfer(c3, valid.withdrawal(), rent, c4);
    (c1, c2, c3, c4, c5)
}

/// What `k` gains in a `take`: the vault if the deposit goes to `k`, the price
/// if it goes to `k`, less the price if it comes from `k`.
pub open spec fn take_gain(chain: Chain, a: TakeAccounts, k: Address) -> int {
    let receive = chain.escrows[a.escrow.key].receive as int;
    (if k == a.taker_ata_a.key {
        chain.amount(a.vault.key)
    } else {
        0
    }) + (if k == a.maker_ata_b.key {
        receive
    } else {
        0
    }) - (if k == a.taker_ata_b.key {
        receive
    } else {
        0
    })
}

/// A `take` that goes through pays the maker exactly the price that the taker
/// expects, gives the taker all that is in the vault, and closes the vault and
/// the escrow. No other escrow and no other token account is touched.
pub proof fn law_take(
    chain: Chain,
    a: TakeAccounts,
    expected_transfer: u64,
    now: i64,
    rent: Rent,
    after: Chain,
)
    requires
        chain.shows_take(a),
        chain.after_take(a, expected_transfer, now, rent) == Some(after),
    ensures
        chain.escrow(a.escrow.key) is Some,
        chain.escrows[a.escrow.key].receive == expected_transfer,
        chain.escrows[a.escrow.key].mint_b == a.mint_b.key,
        chain.escrows[a.escrow.key].live(now),
        after.escrows == chain.escrows.remove(a.escrow.key),
        after.token(a.vault.key) is None,
        forall|k: Address|
            k != a.vault.key ==> #[trigger] after.amount(k) == chain.amount(k) + take_gain(
                chain,
                a,
                k,
            ),
        a.taker_ata_a.key != a.vault.key ==> {
            &&& after.token(a.taker_ata_a.key) is Some
            &&& after.tokens[a.taker_ata_a.key].owner == a.taker.key
            &&& after.tokens[a.taker_ata_a.key].mint == a.mint_a.key
            &&& after.tokens[a.taker_ata_a.key].token_program == a.token_program
        },
        after.token(a.maker_ata_b.key) is Some,
        after.tokens[a.maker_ata_b.key].owner == a.maker.key,
        after.tokens[a.maker_ata_b.key].mint == a.mint_b.key,
        after.tokens[a.maker_ata_b.key].token_program == a.token_program,
        a.taker_ata_b.key != a.vault.key ==> {
            &&& after.token(a.taker_ata_b.key) is Some
            &&& after.tokens[a.taker_ata_b.key].owner == chain.tokens[a.taker_ata_b.key].owner
            &&& after.tokens[a.taker_ata_b.key].mint == chain.tokens[a.taker_ata_b.key].mint
            &&& after.tokens[a.taker_ata_b.key].token_program
                == chain.tokens[a.taker_ata_b.key].token_program
        },
        forall|k: Address|
            k != a.vault.key && k != a.taker_ata_a.key && k != a.taker_ata_b.key && k
                != a.maker_ata_b.key ==> #[trigger] after.token(k) == chain.token(k),
        after.mints == chain.mints,
        after.others == chain.others,
{
    let (c1, c2, c3, c4, c5) = lemma_take_chains(chain, a.accepted(), rent, after);
    assert(chain.token(a.vault.key) is Some);
    assert(c4.amount(a.vault.key) == 0);
    assert(a.maker_ata_b.key != a.vault.key);
    assert(c2.tokens.dom().contains(a.maker_ata_b.key));
    assert(c3.tokens.dom().contains(a.maker_ata_b.key));
    assert(c4.tokens.dom().contains(a.maker_ata_b.key));
    assert(c2.tokens.dom().contains(a.taker_ata_a.key));
    assert(c3.tokens.dom().contains(a.taker_ata_a.key));
    assert(c4.tokens.dom().contains(a.taker_ata_a.key));
    assert(c2.token(a.taker_ata_b.key) == chain.token(a.taker_ata_b.key));
    assert(c3.tokens.dom().contains(a.taker_ata_b.key));
    assert(c4.tokens.dom().contains(a.taker_ata_b.key));
    assert forall|k: Address| k != a.vault.key implies #[trigger] after.amount(k) == chain.amount(k)
        + take_gain(chain, a, k) by {
        assert(after.amount(k) == c4.amount(k));
        assert(c4.amount(k) == c3.amount(k) + (if k == a.taker_ata_a.key {
            chain.amount(a.vault.key)
        } else {
            0
        }));
        assert(c2.amount(k) == chain.amount(k));
    }
    assert forall|k: Address|
        k != a.vault.key && k != a.taker_ata_a.key && k != a.taker_ata_b.key && k
            != a.maker_ata_b.key implies #[trigger] after.token(k) == chain.token(k) by {
        assert(after.token(k) == c4.token(k));
        assert(c4.token(k) == c3.token(k));
        assert(c3.token(k) == c2.token(k));
        assert(c2.token(k) == c1.token(k));
    }
}

/// The chains between three effects.
pub(crate) proof fn lemma_run_three(chain: Chain, effects: Seq<Effect>, rent: Rent, after: Chain) -> (r: (
    Chain,
    Chain,
))
    requires
        effects.len() == 3,
        chain.run(effects, rent) == Some(after),
    ensures
        chain.apply(effects[0], rent) == Some(r.0),
        r.0.apply(effects[1], rent) == Some(r.1),
        r.1.apply(effects[2], rent) == Some(after),
{
    let s1 = effects.drop_first();
    let s2 = s1.drop_first();
    let s3 = s2.drop_first();
    let c1 = chain.apply(effects[0], rent)->0;
    let c2 = c1.apply(s1[0], rent)->0;
    assert(c1.run(s1, rent) == Some(after));
    assert(c2.run(s2, rent) == Some(after));
    assert(s3.len() == 0);
    assert(c2.apply(s2[0], rent)->0.run(s3, rent) == Some(after));
    (c1, c2)
}

/// The chain after the creation with which a `refund` begins.
pub(crate) proof fn lemma_refund_creation(chain: Chain, valid: Refund, rent: Rent) -> (r: Chain)
    requires
        chain.run(creation_effects(valid.creation()), rent) is Some,
    ensures
        is_created(chain, valid.creation(), rent, r),
        chain.run(creation_effects(valid.creation()), rent) == Some(r),
        chain.run(valid.effects(), rent) == r.run(valid.payout(), rent),
{
    let s = creation_effects(valid.creation());
    lemma_run_add(chain, s, valid.payout(), rent);
    let c1 = chain.run(s, rent)->0;
    lemma_run_creation(chain, valid.creation(), rent, c1);
    c1
}

/// The chains between the effects of a `refund`: after the creation, after the
/// withdrawal and after the vault is closed.
pub(crate) proof fn lemma_refund_chains(
    chain: Chain,
    valid: Refund,
    rent: Rent,
    after: Chain,
) -> (r: (Chain, Chain, Chain))
    requires
        chain.run(valid.effects(), rent) == Some(after),
    ensures
        is_created(chain, valid.creation(), rent, r.0),
        is_transferred(r.0, valid.withdrawal(), r.1),
        r.1.apply(Effect::CloseTokenAccount(valid.vault_closing()), rent) == Some(r.2),
        r.2.apply(
            Effect::CloseEscrow { address: valid.escrow.key, destination: valid.maker },
            rent,
        ) == Some(after),
{
    lemma_run_add(chain, creation_effects(valid.creation()), valid.payout(), rent);
    let c1 = lemma_refund_creation(chain, valid, rent);
    let (c2, c3) = lemma_run_three(c1, valid.payout(), rent, after);
    lemma_transfer(c1, valid.withdrawal(), rent, c2);
    (c1, c2, c3)
}

/// A `refund` that goes through gives the maker all that is in the vault and
/// closes the vault and the escrow. No other escrow and no other token account
/// is touched.
pub proof fn law_refund(chain: Chain, a: RefundAccounts, rent: Rent, after: Chain)
    requires
        chain.shows_refund(a),
        chain.after_refund(a, rent) == Some(after),
    ensures
        chain.escrow(a.escrow.key) is Some,
        chain.escrows[a.escrow.key].maker == a.maker.key,
        after.escrows == chain.escrows.remove(a.escrow.key),
        after.token(a.vault.key) is None,
        a.maker_ata_a.key != a.vault.key,
        after.amount(a.maker_ata_a.key) == chain.amount(a.maker_ata_a.key) + chain.amount(
            a.vault.key,
        ),
        after.token(a.maker_ata_a.key) == Some(
            TokenAccount {
                mint: a.mint_a.key,
                owner: a.maker.key,
                amount: (chain.amount(a.maker_ata_a.key) + chain.amount(a.vault.key)) as u64,
                token_program: a.token_program,
            },
        ),
        forall|k: Address|
            k != a.vault.key && k != a.maker_ata_a.key ==> #[trigger] after.token(k) == chain.token(
                k,
            ),
        after.mints == chain.mints,
        after.others == chain.others,
{
    let (c1, c2, c3) = lemma_refund_chains(chain, a.accepted(), rent, after);
    assert(a.maker_ata_a.key != a.vault.key);
    assert(after.amount(a.maker_ata_a.key) == c2.amount(a.maker_ata_a.key));
    assert(c1.amount(a.maker_ata_a.key) == chain.amount(a.maker_ata_a.key));
    assert forall|k: Address| k != a.vault.key && k != a.maker_ata_a.key implies #[trigger]
        after.token(k) == chain.token(k) by {
        assert(after.token(k) == c2.token(k));
        assert(c2.token(k) == c1.token(k));
    }
}

/// An `update` that goes through changes the amount and the mint of the price,
/// and nothing else: no token moves.
pub proof fn law_update(
    chain: Chain,
    a: UpdateAccounts,
    new_receive: u64,
    now: i64,
    rent: Rent,
    after: Chain,
)
    requires
        chain.shows_update(a),
        chain.after_update(a, new_receive, now, rent) == Some(after),
    ensures
        chain.escrow(a.escrow.key) is Some,
        chain.escrows[a.escrow.key].maker == a.maker.key,
        chain.escrows[a.escrow.key].live(now),
        new_receive > 0,
        after.escrows == chain.escrows.insert(
            a.escrow.key,
            chain.escrows[a.escrow.key].repriced(a.mint_b.key, new_receive),
        ),
        after.tokens == chain.tokens,
        after.mints == chain.mints,
        after.others == chain.others,
        after.lamports == chain.lamports,
{
    reveal_with_fuel(Chain::run, 2);
}

} // verus!
