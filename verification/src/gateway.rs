//! The narrow capability onto the external fungible-token service.
//!
//! The escrow needs exactly one thing from the outside world: "move N units
//! of asset A from principal P into the escrow's own custody, or fail". The
//! [`TokenGateway`] trait is that capability; a production adapter translates
//! it into the real token service's transfer-with-authorization call, while
//! tests use the in-memory [`ScriptedGateway`]. The adapter owns no escrow
//! state, and its only failure mode is whatever the service reports.

use vstd::prelude::*;
use crate::asset::{Principal, Token};
use crate::errors::TransferError;

verus! {

/// One custody transfer that was requested of the token service: move
/// `amount` units of `token` from `from` into the escrow's own custody.
#[derive(Clone, Copy, Debug, PartialEq)]
pub struct TransferRecord {
    pub token: Token,
    pub from: Principal,
    pub amount: i128,
}

/// Capability to move funds into the escrow's custody.
///
/// No behaviour is promised of an implementation: the escrow state machine is
/// verified for every outcome an implementation may report, and a refusal is
/// surfaced to the escrow's caller unchanged.
pub trait TokenGateway {
    /// Move `amount` units of `token` from `from` into the escrow's custody,
    /// authorized as the direct caller, or report why the service refused.
    fn transfer_into_custody(
        &mut self,
        token: &Token,
        from: &Principal,
        amount: i128,
    ) -> Result<(), TransferError>;
}

/// In-memory stand-in for the token service: it accepts or refuses every
/// transfer as scripted, and keeps the requests it served in order.
pub struct ScriptedGateway {
    /// Whether the next transfers are accepted.
    pub accept: bool,
    /// The refusal reported while `accept` is false.
    pub refusal: TransferError,
    /// Every transfer served so far, oldest first.
    pub served: Vec<TransferRecord>,
}

impl TokenGateway for ScriptedGateway {
    fn transfer_into_custody(
        &mut self,
        token: &Token,
        from: &Principal,
        amount: i128,
    ) -> (r: Result<(), TransferError>)
        ensures
            old(self).accept ==> r == Ok::<(), TransferError>(())
                && final(self).served@ == old(self).served@.push(
                    (TransferRecord { token: *token, from: *from, amount }),
                )
                && final(self).accept == old(self).accept
                && final(self).refusal == old(self).refusal,
            !old(self).accept ==> r == Err::<(), TransferError>(old(self).refusal)
                && *final(self) == *old(self),
    {
        if self.accept {
            self.served.push(TransferRecord { token: *token, from: *from, amount });
            Ok(())
        } else {
            Err(self.refusal)
        }
    }
}

} // verus!
