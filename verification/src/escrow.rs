//! The escrow state machine and its persisted record.
//!
//! One instance lives through three states: uninitialized, active (release
//! date not reached), withdrawable (release date reached). `deposit` moves it
//! out of the uninitialized state exactly once, ever; `withdraw` only
//! validates a claim against the record — by design it disburses nothing and
//! mutates nothing, so a withdrawable instance stays withdrawable. That
//! check-only behaviour is a known gap of the design, kept deliberately:
//! there is no payout path and no per-holder withdrawal tracking.

use vstd::prelude::*;
use crate::asset::{Principal, Token};
use crate::errors::{DdsError, TransferError};
use crate::gateway::TokenGateway;

verus! {

/// Most holders a single escrow accepts.
pub const MAX_HOLDERS: usize = 10;

/// One beneficiary entry: a principal and its recorded entitlement weight.
///
/// Nothing ties the weights to the deposited total: a recorded allocation may
/// well not sum to the pool. That absence of a sum check is part of the
/// design and is reproduced here, not repaired.
#[derive(Clone, Copy, Debug, PartialEq, Eq, Structural)]
pub struct Holder {
    pub addr: Principal,
    pub amount: i128,
}

/// The single persisted escrow record.
#[derive(Debug)]
pub struct Divdata {
    /// The asset under escrow.
    pub token: Token,
    /// Total amount deposited; strictly positive at creation, never re-checked.
    pub div: i128,
    /// Timestamp after which withdrawal validation may succeed.
    pub exdate: u64,
    /// Ordered beneficiary list, between one and [`MAX_HOLDERS`] entries.
    pub holders: Vec<Holder>,
}

impl Divdata {
    /// The creation-time invariant of a record: a positive pool and an
    /// acceptable holder count.
    pub open spec fn wf(self) -> bool {
        &&& self.div > 0
        &&& 1 <= self.holders@.len() <= MAX_HOLDERS
    }
}

/// One escrow instance: the durable store behind it holds a presence-only
/// initialization flag and, beside it, the record. The flag is the sole
/// guard against re-initialization; the two are only ever written together.
#[derive(Debug)]
pub struct Dds {
    /// The presence-only initialization flag: set by the one successful
    /// deposit, never cleared.
    pub init: bool,
    /// The escrow record, present exactly when `init` is set.
    pub record: Option<Divdata>,
}

/// The first reason a deposit is turned away, or `None` when validation
/// passes and the custody transfer may be attempted. The checks run in this
/// order: lifecycle, holder count, amount, release date.
pub open spec fn deposit_rejection(
    init: bool,
    n_holders: nat,
    amount: i128,
    exdate: u64,
    now: u64,
) -> Option<DdsError> {
    if init {
        Some(DdsError::AlreadyInitialized)
    } else if n_holders < 1 || n_holders > MAX_HOLDERS {
        Some(DdsError::InvalidHolderList)
    } else if amount <= 0 {
        Some(DdsError::NonPositiveAmount)
    } else if exdate < now {
        Some(DdsError::ExDateInPast)
    } else {
        None
    }
}

/// What a withdrawal claim comes to against a given state: the record must
/// exist, the release date must have been reached, the presented asset must
/// be the recorded one, and the claim must not exceed the recorded pool.
pub open spec fn withdraw_outcome(
    s: Dds,
    token: Seq<u8>,
    amount: i128,
    now: u64,
) -> Result<(), DdsError> {
    match s.record {
        None => Err(DdsError::NotInitialized),
        Some(d) => {
            if now < d.exdate {
                Err(DdsError::BeforeExDate)
            } else if d.token@ != token {
                Err(DdsError::WrongToken)
            } else if amount > d.div {
                Err(DdsError::InsufficientFunds)
            } else {
                Ok(())
            }
        },
    }
}

/// What each read accessor returns against a given state.
pub open spec fn holders_outcome(s: Dds) -> Result<Seq<Holder>, DdsError> {
    match s.record {
        None => Err(DdsError::NotInitialized),
        Some(d) => Ok(d.holders@),
    }
}

pub open spec fn exdate_outcome(s: Dds) -> Result<u64, DdsError> {
    match s.record {
        None => Err(DdsError::NotInitialized),
        Some(d) => Ok(d.exdate),
    }
}

pub open spec fn div_outcome(s: Dds) -> Result<i128, DdsError> {
    match s.record {
        None => Err(DdsError::NotInitialized),
        Some(d) => Ok(d.div),
    }
}

pub open spec fn token_outcome(s: Dds) -> Result<Token, DdsError> {
    match s.record {
        None => Err(DdsError::NotInitialized),
        Some(d) => Ok(d.token),
    }
}

impl Dds {
    /// Well-formedness: the flag and the record are present together — no
    /// reader ever sees one without the other — and a present record meets
    /// its creation-time invariant.
    pub open spec fn wf(self) -> bool {
        &&& self.init <==> self.record is Some
        &&& self.record matches Some(d) ==> d.wf()
    }

    /// A fresh, uninitialized instance: no flag, no record.
    pub fn new() -> (r: Dds)
        ensures
            !r.init,
            r.record is None,
            r.wf(),
    {
        Dds { init: false, record: None }
    }

    /// Whether a deposit was already recorded on this instance.
    pub fn is_initialized(&self) -> (r: bool)
        ensures
            r == self.init,
    {
        self.init
    }

    /// Record a deposit once the external custody transfer has been
    /// attempted: on success persist the record and set the flag, on refusal
    /// persist nothing and surface the refusal unchanged.
    pub fn settle_deposit(
        &mut self,
        token: Token,
        amount: i128,
        holders: Vec<Holder>,
        exdate: u64,
        transfer: Result<(), TransferError>,
    ) -> (r: Result<(), DdsError>)
        requires
            !old(self).init,
            amount > 0,
            1 <= holders@.len() <= MAX_HOLDERS,
        ensures
            match transfer {
                Ok(()) => {
                    &&& r == Ok::<(), DdsError>(())
                    &&& final(self).init
                    &&& final(self).record matches Some(d)
                        && d.token == token
                        && d.div == amount
                        && d.exdate == exdate
                        && d.holders@ == holders@
                },
                Err(te) => {
                    &&& r == Err::<(), DdsError>(DdsError::TransferFailed(te))
                    &&& *final(self) == *old(self)
                },
            },
            old(self).wf() ==> final(self).wf(),
    {
        match transfer {
            Ok(()) => {
                self.record = Some(Divdata { token, div: amount, exdate, holders });
                self.init = true;
                Ok(())
            },
            Err(te) => Err(DdsError::TransferFailed(te)),
        }
    }

    /// Deposit a pool into escrow: validate, pull the funds into custody
    /// through the gateway, then persist the record and the flag — in that
    /// order, so a failed call leaves no trace and a turned-away call never
    /// touches the gateway at all.
    pub fn deposit<G: TokenGateway>(
        &mut self,
        gateway: &mut G,
        invoker: &Principal,
        token: Token,
        amount: i128,
        holders: Vec<Holder>,
        exdate: u64,
        now: u64,
    ) -> (r: Result<(), DdsError>)
        ensures
            deposit_rejection(old(self).init, holders@.len(), amount, exdate, now)
                matches Some(e) ==> {
                &&& r == Err::<(), DdsError>(e)
                &&& *final(self) == *old(self)
                &&& *final(gateway) == *old(gateway)
            },
            deposit_rejection(old(self).init, holders@.len(), amount, exdate, now)
                is None ==> match r {
                Ok(()) => {
                    &&& final(self).init
                    &&& final(self).record matches Some(d)
                        && d.token == token
                        && d.div == amount
                        && d.exdate == exdate
                        && d.holders@ == holders@
                },
                Err(e) => {
                    &&& e matches DdsError::TransferFailed(_)
                    &&& *final(self) == *old(self)
                },
            },
            old(self).wf() ==> final(self).wf(),
    {
        if self.init {
            return Err(DdsError::AlreadyInitialized);
        }
        if holders.len() < 1 || holders.len() > MAX_HOLDERS {
            return Err(DdsError::InvalidHolderList);
        }
        if amount <= 0 {
            return Err(DdsError::NonPositiveAmount);
        }
        if exdate < now {
            return Err(DdsError::ExDateInPast);
        }
        let transfer = gateway.transfer_into_custody(&token, invoker, amount);
        self.settle_deposit(token, amount, holders, exdate, transfer)
    }

    /// Validate a withdrawal claim against the record. By design this is
    /// check-only: nothing is disbursed and nothing is mutated, so a valid
    /// claim validates again indefinitely.
    pub fn withdraw(&self, token: &Token, amount: i128, now: u64) -> (r: Result<(), DdsError>)
        ensures
            r == withdraw_outcome(*self, token@, amount, now),
    {
        match &self.record {
            None => Err(DdsError::NotInitialized),
            Some(d) => {
                if now < d.exdate {
                    Err(DdsError::BeforeExDate)
                } else if !(d.token == *token) {
                    Err(DdsError::WrongToken)
                } else if amount > d.div {
                    Err(DdsError::InsufficientFunds)
                } else {
                    Ok(())
                }
            },
        }
    }

    /// The recorded beneficiary list, in recorded order.
    pub fn holders(&self) -> (r: Result<Vec<Holder>, DdsError>)
        ensures
            match holders_outcome(*self) {
                Ok(hs) => r matches Ok(v) && v@ == hs,
                Err(e) => r == Err::<Vec<Holder>, DdsError>(e),
            },
    {
        match &self.record {
            None => Err(DdsError::NotInitialized),
            Some(d) => Ok(copy_holders(&d.holders)),
        }
    }

    /// The recorded release timestamp.
    pub fn exdate(&self) -> (r: Result<u64, DdsError>)
        ensures
            r == exdate_outcome(*self),
    {
        match &self.record {
            None => Err(DdsError::NotInitialized),
            Some(d) => Ok(d.exdate),
        }
    }

    /// The recorded total deposited amount.
    pub fn div(&self) -> (r: Result<i128, DdsError>)
        ensures
            r == div_outcome(*self),
    {
        match &self.record {
            None => Err(DdsError::NotInitialized),
            Some(d) => Ok(d.div),
        }
    }

    /// The recorded asset identifier.
    pub fn token(&self) -> (r: Result<Token, DdsError>)
        ensures
            r == token_outcome(*self),
    {
        match &self.record {
            None => Err(DdsError::NotInitialized),
            Some(d) => Ok(d.token),
        }
    }
}

/// An element-by-element copy of a holder list.
fn copy_holders(v: &Vec<Holder>) -> (r: Vec<Holder>)
    ensures
        r@ == v@,
{
    let mut out: Vec<Holder> = Vec::new();
    let mut i: usize = 0;
    while i < v.len()
        invariant
            0 <= i <= v@.len(),
            out@ == v@.subrange(0, i as int),
        decreases v@.len() - i,
    {
        out.push(v[i]);
        i = i + 1;
    }
    proof {
        assert(out@ =~= v@);
    }
    out
}

} // verus!
