//! What holds after any number of instructions.

use crate::accounts::{mint_fault, token_fault};
use crate::address::Address;
use crate::chain::{Chain, Rent};
use crate::effect::Effect;
use crate::instructions::make::MakeAccounts;
use crate::instructions::refund::RefundAccounts;
use crate::instructions::take::TakeAccounts;
use crate::instructions::update::UpdateAccounts;
use crate::laws::custody::{custody, law_custody_after_make, law_custody_after_refund,
    law_custody_after_take, law_custody_after_update, law_never_stranded, refund_by_maker};
use crate::laws::guards::{law_no_offer_to_refund, law_no_offer_to_take, law_no_offer_to_update};
use crate::laws::places::{law_effects_keep_one_account, one_account};
use crate::laws::steps::{law_make, law_refund, law_take, law_update};
use crate::laws::supply::{issued, law_effects_keep_supply, supply};
use crate::{make_effects, take_fault, update_effects, update_fault};
use vstd::prelude::*;

verus! {

/// One instruction, with its accounts and arguments and the time at which it is
/// run.
pub enum Step {
    Make {
        making: MakeAccounts,
        seed: u64,
        receive: u64,
        deposit: u64,
        deadline: i64,
        now: i64,
    },
    Take { taking: TakeAccounts, expected_transfer: u64, now: i64 },
    Refund { refunding: RefundAccounts },
    Update { updating: UpdateAccounts, new_receive: u64, now: i64 },
}

impl Step {
    /// Whether the accounts are passed as they are on the chain.
    pub open spec fn is_shown(self, chain: Chain) -> bool {
        match self {
            Step::Make { making, .. } => chain.shows_make(making),
            Step::Take { taking, .. } => chain.shows_take(taking),
            Step::Refund { refunding } => chain.shows_refund(refunding),
            Step::Update { updating, .. } => chain.shows_update(updating),
        }
    }

    /// The effects of the instruction, if it is not refused.
    pub open spec fn effects(self) -> Seq<Effect> {
        match self {
            Step::Make { making, seed, receive, deposit, deadline, .. } => make_effects(
                making,
                seed,
                receive,
                deposit,
                deadline,
            ),
            Step::Take { taking, .. } => taking.accepted().effects(),
            Step::Refund { refunding } => refunding.accepted().effects(),
            Step::Update { updating, new_receive, .. } => update_effects(updating, new_receive),
        }
    }

    /// The chain after the instruction. One that does not go through leaves
    /// everything as it was.
    pub open spec fn after(self, chain: Chain, rent: Rent) -> Chain {
        let next = match self {
            Step::Make { making, seed, receive, deposit, deadline, now } => chain.after_make(
                making,
                seed,
                receive,
                deposit,
                deadline,
                now,
                rent,
            ),
            Step::Take { taking, expected_transfer, now } => chain.after_take(
                taking,
                expected_transfer,
                now,
                rent,
            ),
            Step::Refund { refunding } => chain.after_refund(refunding, rent),
            Step::Update { updating, new_receive, now } => chain.after_update(
                updating,
                new_receive,
                now,
                rent,
            ),
        };
        match next {
            Some(after) => after,
            None => chain,
        }
    }

    /// Whether this is an attempt to make an offer at `key`.
    pub open spec fn makes(self, key: Address) -> bool {
        self is Make && self->making.escrow.key == key
    }

    /// Whether this is an attempt to refund the escrow at `key`.
    pub open spec fn refunds(self, key: Address) -> bool {
        self is Refund && self->refunding.escrow.key == key
    }

    /// Whether the instruction looks at the clock no earlier than at `deadline`,
    /// if it is one that expiry closes.
    pub open spec fn is_late(self, deadline: i64) -> bool {
        match self {
            Step::Take { now, .. } => now >= deadline,
            Step::Update { now, .. } => now >= deadline,
            _ => true,
        }
    }

    /// Whether this is an attempt to reprice the escrow at `key`.
    pub open spec fn reprices(self, key: Address) -> bool {
        self is Update && self->updating.escrow.key == key
    }
}

/// Whether every instruction is passed its accounts as they are by then.
pub open spec fn are_shown(chain: Chain, steps: Seq<Step>, rent: Rent) -> bool
    decreases steps.len(),
{
    steps.len() == 0 || {
        &&& steps[0].is_shown(chain)
        &&& are_shown(steps[0].after(chain, rent), steps.drop_first(), rent)
    }
}

/// The chain after one instruction upon another.
pub open spec fn after_all(chain: Chain, steps: Seq<Step>, rent: Rent) -> Chain
    decreases steps.len(),
{
    if steps.len() == 0 {
        chain
    } else {
        after_all(steps[0].after(chain, rent), steps.drop_first(), rent)
    }
}

/// Custody is never lost: if every escrow is in order, as when there is none, it
/// stays so, whatever instructions are run, by whom and when.
pub proof fn law_custody_lasts(chain: Chain, steps: Seq<Step>, rent: Rent)
    requires
        custody(chain),
        are_shown(chain, steps, rent),
    ensures
        custody(after_all(chain, steps, rent)),
    decreases steps.len(),
{
    if steps.len() > 0 {
        let next = steps[0].after(chain, rent);
        match steps[0] {
            Step::Make { making, seed, receive, deposit, deadline, now } => {
                if chain.after_make(making, seed, receive, deposit, deadline, now, rent) is Some {
                    law_custody_after_make(
                        chain,
                        making,
                        seed,
                        receive,
                        deposit,
                        deadline,
                        now,
                        rent,
                        next,
                    );
                }
            },
            Step::Take { taking, expected_transfer, now } => {
                if chain.after_take(taking, expected_transfer, now, rent) is Some {
                    law_custody_after_take(chain, taking, expected_transfer, now, rent, next);
                }
            },
            Step::Refund { refunding } => {
                if chain.after_refund(refunding, rent) is Some {
                    law_custody_after_refund(chain, refunding, rent, next);
                }
            },
            Step::Update { updating, new_receive, now } => {
                if chain.after_update(updating, new_receive, now, rent) is Some {
                    law_custody_after_update(chain, updating, new_receive, now, rent, next);
                }
            },
        }
        law_custody_lasts(next, steps.drop_first(), rent);
    }
}

/// No number of instructions makes or loses a token of any mint.
pub proof fn law_supply_lasts(chain: Chain, steps: Seq<Step>, rent: Rent)
    requires
        chain.tokens.dom().finite(),
    ensures
        after_all(chain, steps, rent).tokens.dom().finite(),
        forall|mint: Address| #[trigger]
            supply(after_all(chain, steps, rent).tokens, mint) == supply(chain.tokens, mint),
        issued(chain) ==> issued(after_all(chain, steps, rent)),
    decreases steps.len(),
{
    if steps.len() > 0 {
        let next = steps[0].after(chain, rent);
        if next != chain {
            law_effects_keep_supply(chain, steps[0].effects(), rent, next);
        }
        law_supply_lasts(next, steps.drop_first(), rent);
    }
}

/// Funds are never stranded: whatever instructions were run, by whom and when,
/// the maker of an offer that is open then can have the deposit back.
pub proof fn law_refundable_after_all(
    chain: Chain,
    steps: Seq<Step>,
    rent: Rent,
    a: RefundAccounts,
)
    requires
        custody(chain),
        issued(chain),
        are_shown(chain, steps, rent),
        ({
            let then = after_all(chain, steps, rent);
            &&& then.escrow(a.escrow.key) is Some
            &&& then.shows_refund(a)
            &&& refund_by_maker(then, a, a.escrow.key)
            &&& a.maker_ata_a.data is None ==> then.can_fund(a.maker.key, a.maker_ata_a.key, rent)
        }),
    ensures
        a.fault() is None,
        after_all(chain, steps, rent).after_refund(a, rent) is Some,
{
    law_custody_lasts(chain, steps, rent);
    law_supply_lasts(chain, steps, rent);
    law_never_stranded(after_all(chain, steps, rent), a, rent);
}

/// No number of instructions puts a second account at an address.
pub proof fn law_one_account_lasts(chain: Chain, steps: Seq<Step>, rent: Rent)
    requires
        one_account(chain),
    ensures
        one_account(after_all(chain, steps, rent)),
    decreases steps.len(),
{
    if steps.len() > 0 {
        let next = steps[0].after(chain, rent);
        if next != chain {
            law_effects_keep_one_account(chain, steps[0].effects(), rent, next);
        }
        law_one_account_lasts(next, steps.drop_first(), rent);
    }
}

/// What one instruction does to the escrow at `key`: none comes without a
/// `make`, and one that has expired goes only with a refund and does not change.
proof fn lemma_step_on_escrow(chain: Chain, step: Step, rent: Rent, key: Address)
    requires
        step.is_shown(chain),
    ensures
        chain.escrow(key) is None && !step.makes(key) ==> step.after(chain, rent).escrow(key)
            is None,
        chain.escrow(key) is Some && step.is_late(chain.escrows[key].deadline) && !step.refunds(key)
            ==> step.after(chain, rent).escrow(key) == chain.escrow(key),
{
    let next = step.after(chain, rent);
    match step {
        Step::Make { making, seed, receive, deposit, deadline, now } => {
            if chain.after_make(making, seed, receive, deposit, deadline, now, rent) is Some {
                law_make(chain, making, seed, receive, deposit, deadline, now, rent, next);
            }
        },
        Step::Take { taking, expected_transfer, now } => {
            if chain.after_take(taking, expected_transfer, now, rent) is Some {
                law_take(chain, taking, expected_transfer, now, rent, next);
            }
        },
        Step::Refund { refunding } => {
            if chain.after_refund(refunding, rent) is Some {
                law_refund(chain, refunding, rent, next);
            }
        },
        Step::Update { updating, new_receive, now } => {
            if chain.after_update(updating, new_receive, now, rent) is Some {
                law_update(chain, updating, new_receive, now, rent, next);
            }
        },
    }
}

/// An offer that is gone stays gone, whatever instructions are run, by whom and
/// when, until it is made again.
pub proof fn law_gone_until_made(chain: Chain, steps: Seq<Step>, rent: Rent, key: Address)
    requires
        chain.escrow(key) is None,
        are_shown(chain, steps, rent),
        forall|i: int| 0 <= i < steps.len() ==> !(#[trigger] steps[i]).makes(key),
    ensures
        after_all(chain, steps, rent).escrow(key) is None,
    decreases steps.len(),
{
    if steps.len() > 0 {
        let rest = steps.drop_first();
        assert(!steps[0].makes(key));
        lemma_step_on_escrow(chain, steps[0], rent, key);
        assert forall|i: int| 0 <= i < rest.len() implies !(#[trigger] rest[i]).makes(key) by {
            assert(rest[i] == steps[i + 1]);
        }
        law_gone_until_made(steps[0].after(chain, rent), rest, rent, key);
    }
}

/// Taking twice cannot happen, however much later. Once an offer has been taken,
/// and whatever was run since short of making it again, it can be neither taken
/// nor refunded nor repriced. If nothing that is looked at before is wrong, the
/// refusal says that there is no such offer, or that something else is there.
pub proof fn law_taken_for_good(
    chain: Chain,
    a: TakeAccounts,
    expected_transfer: u64,
    now: i64,
    rent: Rent,
    taken: Chain,
    steps: Seq<Step>,
    again: TakeAccounts,
    expected_again: u64,
    refunding: RefundAccounts,
    updating: UpdateAccounts,
    new_receive: u64,
    later: i64,
)
    requires
        chain.shows_take(a),
        chain.after_take(a, expected_transfer, now, rent) == Some(taken),
        are_shown(taken, steps, rent),
        forall|i: int| 0 <= i < steps.len() ==> !(#[trigger] steps[i]).makes(a.escrow.key),
        after_all(taken, steps, rent).shows_take(again),
        again.escrow.key == a.escrow.key,
        after_all(taken, steps, rent).shows_refund(refunding),
        refunding.escrow.key == a.escrow.key,
        after_all(taken, steps, rent).shows_update(updating),
        updating.escrow.key == a.escrow.key,
    ensures
        after_all(taken, steps, rent).escrow(a.escrow.key) is None,
        take_fault(again, expected_again, later) is Some,
        again.taker.is_signer && mint_fault(again.mint_a) is None && mint_fault(again.mint_b)
            is None && token_fault(again.taker_ata_b) is None ==> take_fault(
            again,
            expected_again,
            later,
        ) == Some(again.escrow.absence()),
        refunding.fault() is Some,
        refunding.maker.is_signer && mint_fault(refunding.mint_a) is None ==> refunding.fault()
            == Some(refunding.escrow.absence()),
        update_fault(updating, new_receive, later) is Some,
        updating.maker.is_signer && mint_fault(updating.mint_b) is None ==> update_fault(
            updating,
            new_receive,
            later,
        ) == Some(updating.escrow.absence()),
{
    law_take(chain, a, expected_transfer, now, rent, taken);
    law_gone_until_made(taken, steps, rent, a.escrow.key);
    law_no_offer_to_take(again, expected_again, later);
    law_no_offer_to_refund(refunding);
    law_no_offer_to_update(updating, new_receive, later);
}

/// Once an offer has been refunded, and whatever was run since short of making
/// it again, it can be neither taken nor refunded nor repriced. If nothing that
/// is looked at before is wrong, the refusal says that there is no such offer,
/// or that something else is there.
pub proof fn law_refunded_for_good(
    chain: Chain,
    a: RefundAccounts,
    rent: Rent,
    refunded: Chain,
    steps: Seq<Step>,
    again: RefundAccounts,
    taking: TakeAccounts,
    expected_transfer: u64,
    updating: UpdateAccounts,
    new_receive: u64,
    later: i64,
)
    requires
        chain.shows_refund(a),
        chain.after_refund(a, rent) == Some(refunded),
        are_shown(refunded, steps, rent),
        forall|i: int| 0 <= i < steps.len() ==> !(#[trigger] steps[i]).makes(a.escrow.key),
        after_all(refunded, steps, rent).shows_refund(again),
        again.escrow.key == a.escrow.key,
        after_all(refunded, steps, rent).shows_take(taking),
        taking.escrow.key == a.escrow.key,
        after_all(refunded, steps, rent).shows_update(updating),
        updating.escrow.key == a.escrow.key,
    ensures
        after_all(refunded, steps, rent).escrow(a.escrow.key) is None,
        again.fault() is Some,
        again.maker.is_signer && mint_fault(again.mint_a) is None ==> again.fault() == Some(
            again.escrow.absence(),
        ),
        take_fault(taking, expected_transfer, later) is Some,
        taking.taker.is_signer && mint_fault(taking.mint_a) is None && mint_fault(taking.mint_b)
            is None && token_fault(taking.taker_ata_b) is None ==> take_fault(
            taking,
            expected_transfer,
            later,
        ) == Some(taking.escrow.absence()),
        update_fault(updating, new_receive, later) is Some,
        updating.maker.is_signer && mint_fault(updating.mint_b) is None ==> update_fault(
            updating,
            new_receive,
            later,
        ) == Some(updating.escrow.absence()),
{
    law_refund(chain, a, rent, refunded);
    law_gone_until_made(refunded, steps, rent, a.escrow.key);
    law_no_offer_to_refund(again);
    law_no_offer_to_take(taking, expected_transfer, later);
    law_no_offer_to_update(updating, new_receive, later);
}

/// From its deadline on an offer can only be refunded. Whatever else is run, by
/// whom and when, it is still there, with the terms that it had.
pub proof fn law_expired_until_refunded(chain: Chain, steps: Seq<Step>, rent: Rent, key: Address)
    requires
        chain.escrow(key) is Some,
        are_shown(chain, steps, rent),
        forall|i: int|
            0 <= i < steps.len() ==> (#[trigger] steps[i]).is_late(chain.escrows[key].deadline)
                && !steps[i].refunds(key),
    ensures
        after_all(chain, steps, rent).escrow(key) == chain.escrow(key),
    decreases steps.len(),
{
    if steps.len() > 0 {
        let rest = steps.drop_first();
        let deadline = chain.escrows[key].deadline;
        assert(steps[0].is_late(deadline));
        lemma_step_on_escrow(chain, steps[0], rent, key);
        assert forall|i: int| 0 <= i < rest.len() implies (#[trigger] rest[i]).is_late(deadline)
            && !rest[i].refunds(key) by {
            assert(rest[i] == steps[i + 1]);
        }
        law_expired_until_refunded(steps[0].after(chain, rent), rest, rent, key);
    }
}

/// From its deadline on, no number of repricings changes anything: not the
/// offer, not its vault, and nothing else.
pub proof fn law_expired_repricings(chain: Chain, steps: Seq<Step>, rent: Rent, key: Address)
    requires
        chain.escrow(key) is Some,
        are_shown(chain, steps, rent),
        forall|i: int|
            0 <= i < steps.len() ==> (#[trigger] steps[i]).reprices(key) && steps[i].is_late(
                chain.escrows[key].deadline,
            ),
    ensures
        after_all(chain, steps, rent) == chain,
    decreases steps.len(),
{
    if steps.len() > 0 {
        let rest = steps.drop_first();
        let deadline = chain.escrows[key].deadline;
        assert(steps[0].reprices(key) && steps[0].is_late(deadline));
        assert(steps[0].after(chain, rent) == chain);
        assert forall|i: int| 0 <= i < rest.len() implies (#[trigger] rest[i]).reprices(key)
            && rest[i].is_late(deadline) by {
            assert(rest[i] == steps[i + 1]);
        }
        law_expired_repricings(chain, rest, rent, key);
    }
}

/// However often an offer is repriced, only the amount and the mint of the price
/// change: not who made it, what is in the vault or when it expires, and no
/// other offer.
pub proof fn law_repricings(chain: Chain, steps: Seq<Step>, rent: Rent, key: Address)
    requires
        chain.escrow(key) is Some,
        are_shown(chain, steps, rent),
        forall|i: int| 0 <= i < steps.len() ==> (#[trigger] steps[i]).reprices(key),
    ensures
        ({
            let after = after_all(chain, steps, rent);
            let state = after.escrows[key];
            &&& after.escrows == chain.escrows.insert(
                key,
                chain.escrows[key].repriced(state.mint_b, state.receive),
            )
            &&& after.tokens == chain.tokens
            &&& after.mints == chain.mints
            &&& after.others == chain.others
            &&& after.lamports == chain.lamports
        }),
    decreases steps.len(),
{
    if steps.len() == 0 {
        assert(chain.escrows =~= chain.escrows.insert(key, chain.escrows[key]));
    } else {
        let next = steps[0].after(chain, rent);
        let rest = steps.drop_first();
        let (updating, new_receive, now) = (
            steps[0]->updating,
            steps[0]->new_receive,
            steps[0]->Update_now,
        );
        assert(steps[0].reprices(key));
        if chain.after_update(updating, new_receive, now, rent) is Some {
            law_update(chain, updating, new_receive, now, rent, next);
        }
        assert forall|i: int| 0 <= i < rest.len() implies (#[trigger] rest[i]).reprices(key) by {
            assert(rest[i] == steps[i + 1]);
        }
        law_repricings(next, rest, rent, key);
        let after = after_all(chain, steps, rent);
        let state = after.escrows[key];
        assert(after.escrows =~= chain.escrows.insert(
            key,
            chain.escrows[key].repriced(state.mint_b, state.receive),
        ));
    }
}

} // verus!
