//! The laws of the escrow state machine, proved once and for all against the
//! same spec functions that the executable contracts are stated over.

use vstd::prelude::*;
use crate::asset::Token;
use crate::errors::DdsError;
use crate::escrow::{
    deposit_rejection, div_outcome, exdate_outcome, holders_outcome, token_outcome,
    withdraw_outcome, Dds, Divdata, Holder,
};

verus! {

/// A deposit on an instance that is already initialized is turned away with
/// `AlreadyInitialized`, whatever the arguments. Together with `deposit`'s
/// contract — a turned-away call leaves the state and the gateway untouched,
/// and a successful call sets the flag — the second of two deposits on one
/// instance always fails this way and leaves the first record unchanged.
pub proof fn lemma_second_deposit_rejected(n_holders: nat, amount: i128, exdate: u64, now: u64)
    ensures
        deposit_rejection(true, n_holders, amount, exdate, now)
            == Some(DdsError::AlreadyInitialized),
{
}

/// The holder-count boundary on a fresh instance, other arguments valid: an
/// empty list and an eleventh holder are turned away, one and ten pass.
pub proof fn lemma_holder_count_boundary(amount: i128, exdate: u64, now: u64)
    requires
        amount > 0,
        now <= exdate,
    ensures
        deposit_rejection(false, 0, amount, exdate, now) == Some(DdsError::InvalidHolderList),
        deposit_rejection(false, 1, amount, exdate, now) is None,
        deposit_rejection(false, 10, amount, exdate, now) is None,
        deposit_rejection(false, 11, amount, exdate, now) == Some(DdsError::InvalidHolderList),
{
}

/// The amount boundary on a fresh instance, other arguments valid: zero and
/// negative amounts are turned away, one unit passes.
pub proof fn lemma_amount_boundary(n_holders: nat, exdate: u64, now: u64)
    requires
        1 <= n_holders <= 10,
        now <= exdate,
    ensures
        deposit_rejection(false, n_holders, 0, exdate, now) == Some(DdsError::NonPositiveAmount),
        deposit_rejection(false, n_holders, (-1) as i128, exdate, now)
            == Some(DdsError::NonPositiveAmount),
        deposit_rejection(false, n_holders, 1, exdate, now) is None,
{
}

/// The date gate. At deposit time: a release date strictly before the
/// current time is turned away, one equal to it passes. At withdrawal time:
/// a claim before the release date fails with `BeforeExDate`, and at or
/// after it — with the recorded asset and a claim within the pool — the
/// validation succeeds.
pub proof fn lemma_date_boundary(
    s: Dds,
    d: Divdata,
    n_holders: nat,
    token: Seq<u8>,
    amount: i128,
    exdate: u64,
    now: u64,
)
    requires
        1 <= n_holders <= 10,
        amount > 0,
        s.record == Some(d),
    ensures
        exdate < now ==> deposit_rejection(false, n_holders, amount, exdate, now)
            == Some(DdsError::ExDateInPast),
        exdate == now ==> deposit_rejection(false, n_holders, amount, exdate, now) is None,
        now < d.exdate ==> withdraw_outcome(s, token, amount, now)
            == Err::<(), DdsError>(DdsError::BeforeExDate),
        (now >= d.exdate && token == d.token@ && amount <= d.div)
            ==> withdraw_outcome(s, token, amount, now) == Ok::<(), DdsError>(()),
{
}

/// Field round-trip: against a state that holds a record, each accessor
/// returns exactly the corresponding recorded field, the holder list in its
/// recorded order. Together with `deposit`'s contract — a successful deposit
/// records exactly the deposited token, amount, release date and holders —
/// the accessors hand back exactly what was deposited.
pub proof fn lemma_field_round_trip(s: Dds, d: Divdata)
    requires
        s.record == Some(d),
    ensures
        token_outcome(s) == Ok::<Token, DdsError>(d.token),
        div_outcome(s) == Ok::<i128, DdsError>(d.div),
        exdate_outcome(s) == Ok::<u64, DdsError>(d.exdate),
        holders_outcome(s) == Ok::<Seq<Holder>, DdsError>(d.holders@),
{
}

/// Withdrawal field mismatches: even at or after the release date, a claim
/// that presents a different asset fails with `WrongToken`, and a claim for
/// more than the recorded pool — asset and timing right — fails with
/// `InsufficientFunds`.
pub proof fn lemma_withdraw_field_mismatch(
    s: Dds,
    d: Divdata,
    token: Seq<u8>,
    amount: i128,
    now: u64,
)
    requires
        s.record == Some(d),
        now >= d.exdate,
    ensures
        token != d.token@ ==> withdraw_outcome(s, token, amount, now)
            == Err::<(), DdsError>(DdsError::WrongToken),
        (token == d.token@ && amount > d.div) ==> withdraw_outcome(s, token, amount, now)
            == Err::<(), DdsError>(DdsError::InsufficientFunds),
{
}

/// Uninitialized access: against a state without a record, a withdrawal and
/// every accessor fail with `NotInitialized`, whatever their arguments.
pub proof fn lemma_uninitialized_access(s: Dds, token: Seq<u8>, amount: i128, now: u64)
    requires
        s.record is None,
    ensures
        withdraw_outcome(s, token, amount, now) == Err::<(), DdsError>(DdsError::NotInitialized),
        holders_outcome(s) == Err::<Seq<Holder>, DdsError>(DdsError::NotInitialized),
        exdate_outcome(s) == Err::<u64, DdsError>(DdsError::NotInitialized),
        div_outcome(s) == Err::<i128, DdsError>(DdsError::NotInitialized),
        token_outcome(s) == Err::<Token, DdsError>(DdsError::NotInitialized),
{
}

} // verus!
