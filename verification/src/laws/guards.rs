//! Who may do what, when, and at which price.

use crate::accounts::{escrow_in_place, is_token_program, mint_fault, token_fault, Slot};
use crate::chain::{Chain, Rent};
use crate::error::{Error, EscrowError};
use crate::instructions::make::MakeAccounts;
use crate::instructions::refund::RefundAccounts;
use crate::instructions::take::TakeAccounts;
use crate::instructions::update::UpdateAccounts;
use crate::laws::places::{law_refund_vacates, law_take_vacates, one_account};
use crate::laws::steps::{law_refund, law_take, law_update};
use crate::{make_fault, take_fault, update_fault};
use vstd::prelude::*;

verus! {

/// The deadline is the first dead instant. An offer whose accounts are in order
/// can be taken at its price at every instant before the deadline, and is
/// expired from the deadline on.
pub proof fn law_take_window(a: TakeAccounts, expected_transfer: u64, now: i64)
    requires
        a.fault() is None,
        expected_transfer == a.escrow.data->0.receive,
    ensures
        now < a.escrow.data->0.deadline ==> take_fault(a, expected_transfer, now) is None,
        now >= a.escrow.data->0.deadline ==> take_fault(a, expected_transfer, now) == Some(
            Error::Escrow(EscrowError::EscrowExpired),
        ),
{
}

/// The same window holds for repricing.
pub proof fn law_update_window(a: UpdateAccounts, new_receive: u64, now: i64)
    requires
        a.fault() is None,
        new_receive > 0,
    ensures
        now < a.escrow.data->0.deadline ==> update_fault(a, new_receive, now) is None,
        now >= a.escrow.data->0.deadline ==> update_fault(a, new_receive, now) == Some(
            Error::Escrow(EscrowError::EscrowExpired),
        ),
{
}

/// An offer is made only with a deadline in the future and a price above zero.
pub proof fn law_make_window(
    a: MakeAccounts,
    seed: u64,
    receive: u64,
    deadline: i64,
    now: i64,
)
    requires
        a.fault(seed) is None,
    ensures
        receive == 0 ==> make_fault(a, seed, receive, deadline, now) == Some(
            Error::RequireGtViolated,
        ),
        receive > 0 && deadline <= now ==> make_fault(a, seed, receive, deadline, now) == Some(
            Error::Escrow(EscrowError::DeadlineInPast),
        ),
        receive > 0 && deadline > now ==> make_fault(a, seed, receive, deadline, now) is None,
{
}

/// Once an offer has expired, it can never be taken again.
pub proof fn law_expired_for_takers(a: TakeAccounts, expected_transfer: u64, now: i64, later: i64)
    requires
        now <= later,
        a.escrow.data is Some,
        !a.escrow.data->0.live(now),
    ensures
        take_fault(a, expected_transfer, later) is Some,
{
}

/// Once an offer has expired, it can never be repriced again.
pub proof fn law_expired_for_maker(a: UpdateAccounts, new_receive: u64, now: i64, later: i64)
    requires
        now <= later,
        a.escrow.data is Some,
        !a.escrow.data->0.live(now),
    ensures
        update_fault(a, new_receive, later) is Some,
{
}

/// Nobody but the maker gets a refund. A stranger who signs, and passes the
/// real escrow and accounts that are otherwise in order, is told that the
/// escrow names someone else.
pub proof fn law_refund_is_the_makers(a: RefundAccounts)
    requires
        a.escrow.data is Some,
        a.escrow.data->0.maker != a.maker.key,
    ensures
        a.fault() is Some,
        a.maker.is_signer && mint_fault(a.mint_a) is None && token_fault(a.vault) is None
            && is_token_program(a.token_program) && a.mint_a.data->0.token_program
            == a.token_program && a.maker_fault() is None && a.maker_ata_a.is_writable
            && a.maker.is_writable && escrow_in_place(a.escrow.key, a.escrow.data->0)
            && a.escrow.is_writable ==> a.fault() == Some(Error::ConstraintHasOne),
{
}

/// Nobody but the maker reprices an offer. A stranger who signs, and passes the
/// real escrow and accounts that are otherwise in order, is told that the
/// escrow names someone else.
pub proof fn law_update_is_the_makers(a: UpdateAccounts, new_receive: u64, now: i64)
    requires
        a.escrow.data is Some,
        a.escrow.data->0.maker != a.maker.key,
    ensures
        update_fault(a, new_receive, now) is Some,
        a.maker.is_signer && mint_fault(a.mint_b) is None && is_token_program(a.token_program)
            && a.mint_b.data->0.token_program == a.token_program && escrow_in_place(
            a.escrow.key,
            a.escrow.data->0,
        ) && a.escrow.is_writable ==> update_fault(a, new_receive, now) == Some(
            Error::ConstraintHasOne,
        ),
{
}

/// Only the maker opens an offer: without the signature nothing happens.
pub proof fn law_make_is_signed(
    a: MakeAccounts,
    seed: u64,
    receive: u64,
    deadline: i64,
    now: i64,
)
    requires
        !a.maker.is_signer,
    ensures
        make_fault(a, seed, receive, deadline, now) == Some(Error::AccountNotSigner),
{
}

/// Only the taker spends the taker's tokens: without the signature nothing
/// happens.
pub proof fn law_take_is_signed(a: TakeAccounts, expected_transfer: u64, now: i64)
    requires
        !a.taker.is_signer,
    ensures
        take_fault(a, expected_transfer, now) == Some(Error::AccountNotSigner),
{
}

/// The maker's name alone gets no refund: without the signature nothing happens.
pub proof fn law_refund_is_signed(a: RefundAccounts)
    requires
        !a.maker.is_signer,
    ensures
        a.fault() == Some(Error::AccountNotSigner),
{
}

/// The maker's name alone reprices nothing: without the signature nothing
/// happens.
pub proof fn law_update_is_signed(a: UpdateAccounts, new_receive: u64, now: i64)
    requires
        !a.maker.is_signer,
    ensures
        update_fault(a, new_receive, now) == Some(Error::AccountNotSigner),
{
}

/// An offer is paid in its own mint only. A taker with another mint is told
/// that the escrow names a different one, if nothing else is wrong: that is, if
/// the same accounts would do for an offer priced in that mint.
pub proof fn law_no_counterfeit(a: TakeAccounts, expected_transfer: u64, now: i64)
    requires
        a.escrow.data is Some,
        a.escrow.data->0.mint_b != a.mint_b.key,
    ensures
        take_fault(a, expected_transfer, now) is Some,
        ({
            let state = a.escrow.data->0;
            let priced_so = TakeAccounts {
                escrow: Slot {
                    data: Some(state.repriced(a.mint_b.key, state.receive)),
                    ..a.escrow
                },
                ..a
            };
            priced_so.fault() is None ==> take_fault(a, expected_transfer, now) == Some(
                Error::ConstraintHasOne,
            )
        }),
{
}

/// A taker pays the number that was read or nothing. Once the maker has
/// repriced an offer, a `take` at another price is refused, and if its accounts
/// are in order and the offer is live, because the terms changed; a `take` in
/// another mint is refused too.
pub proof fn law_stale_terms(
    chain: Chain,
    a: UpdateAccounts,
    new_receive: u64,
    now: i64,
    rent: Rent,
    after: Chain,
    taking: TakeAccounts,
    expected_transfer: u64,
    later: i64,
)
    requires
        chain.shows_update(a),
        chain.after_update(a, new_receive, now, rent) == Some(after),
        after.shows_take(taking),
        taking.escrow.key == a.escrow.key,
    ensures
        expected_transfer != new_receive ==> take_fault(taking, expected_transfer, later) is Some,
        expected_transfer != new_receive && taking.fault() is None && after.escrows[a.escrow.key].live(
            later,
        ) ==> take_fault(taking, expected_transfer, later) == Some(
            Error::Escrow(EscrowError::TermsChanged),
        ),
        taking.mint_b.key != a.mint_b.key ==> take_fault(taking, expected_transfer, later) is Some,
        taking.fault() is None && expected_transfer == new_receive && after.escrows[a.escrow.key].live(
            later,
        ) ==> take_fault(taking, expected_transfer, later) is None,
{
    law_update(chain, a, new_receive, now, rent, after);
}

/// An offer that is not there cannot be taken. If nothing that is looked at
/// before is wrong, the refusal says so, or that something else is there.
pub proof fn law_no_offer_to_take(a: TakeAccounts, expected_transfer: u64, now: i64)
    requires
        a.escrow.data is None,
    ensures
        take_fault(a, expected_transfer, now) is Some,
        a.taker.is_signer && mint_fault(a.mint_a) is None && mint_fault(a.mint_b) is None
            && token_fault(a.taker_ata_b) is None ==> take_fault(a, expected_transfer, now)
            == Some(a.escrow.absence()),
{
}

/// An offer that is not there cannot be refunded. If nothing that is looked at
/// before is wrong, the refusal says so, or that something else is there.
pub proof fn law_no_offer_to_refund(a: RefundAccounts)
    requires
        a.escrow.data is None,
    ensures
        a.fault() is Some,
        a.maker.is_signer && mint_fault(a.mint_a) is None ==> a.fault() == Some(a.escrow.absence()),
{
}

/// An offer that is not there cannot be repriced. If nothing that is looked at
/// before is wrong, the refusal says so, or that something else is there.
pub proof fn law_no_offer_to_update(a: UpdateAccounts, new_receive: u64, now: i64)
    requires
        a.escrow.data is None,
    ensures
        update_fault(a, new_receive, now) is Some,
        a.maker.is_signer && mint_fault(a.mint_b) is None ==> update_fault(a, new_receive, now)
            == Some(a.escrow.absence()),
{
}

/// An offer that was taken is gone: taking it again is refused, and so is a
/// refund.
pub proof fn law_taken_once(
    chain: Chain,
    a: TakeAccounts,
    expected_transfer: u64,
    now: i64,
    rent: Rent,
    after: Chain,
    again: TakeAccounts,
    refunding: RefundAccounts,
    later: i64,
)
    requires
        one_account(chain),
        chain.shows_take(a),
        chain.after_take(a, expected_transfer, now, rent) == Some(after),
        after.shows_take(again),
        again.escrow.key == a.escrow.key,
        after.shows_refund(refunding),
        refunding.escrow.key == a.escrow.key,
    ensures
        take_fault(again, expected_transfer, later) is Some,
        again.taker.is_signer && mint_fault(again.mint_a) is None && mint_fault(again.mint_b)
            is None && token_fault(again.taker_ata_b) is None ==> take_fault(
            again,
            expected_transfer,
            later,
        ) == Some(Error::AccountNotInitialized),
        refunding.fault() is Some,
{
    law_take(chain, a, expected_transfer, now, rent, after);
    law_take_vacates(chain, a, expected_transfer, now, rent, after);
    law_no_offer_to_take(again, expected_transfer, later);
    law_no_offer_to_refund(refunding);
}

/// An offer that was refunded is gone: taking it is refused, and so is another
/// refund.
pub proof fn law_refunded_once(
    chain: Chain,
    a: RefundAccounts,
    rent: Rent,
    after: Chain,
    again: RefundAccounts,
    taking: TakeAccounts,
    expected_transfer: u64,
    later: i64,
)
    requires
        one_account(chain),
        chain.shows_refund(a),
        chain.after_refund(a, rent) == Some(after),
        after.shows_refund(again),
        again.escrow.key == a.escrow.key,
        after.shows_take(taking),
        taking.escrow.key == a.escrow.key,
    ensures
        again.fault() is Some,
        again.maker.is_signer && mint_fault(again.mint_a) is None ==> again.fault() == Some(
            Error::AccountNotInitialized,
        ),
        take_fault(taking, expected_transfer, later) is Some,
{
    law_refund(chain, a, rent, after);
    law_refund_vacates(chain, a, rent, after);
    law_no_offer_to_refund(again);
    law_no_offer_to_take(taking, expected_transfer, later);
}

} // verus!
