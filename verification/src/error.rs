//! Errors of redemption and of auction reconciliation.

use vstd::prelude::*;

verus! {

/// Why a redemption was refused. Every variant is a validation error: it is
/// found from the message alone, and the record is left as it was.
#[derive(Debug, Clone, Copy, PartialEq, Eq, Structural)]
pub enum TokenRouterError {
    /// The message's emitter is not the router registered for its chain.
    InvalidSourceRouter,
    /// The message's payload is not a transfer-deposit envelope.
    InvalidEnvelope,
    /// The deposit's 256-bit amount does not fit the 64-bit amounts settled
    /// here.
    AmountOverflow,
    /// The deposit's payload cannot be parsed as a deposit message.
    InvalidDepositMessage,
    /// The deposit's payload parses, but as a message other than a fill.
    InvalidPayloadId,
}

/// Why the reconciliation of an auction was refused.
#[derive(Debug, Clone, Copy, PartialEq, Eq, Structural)]
pub enum MatchingEngineError {
    /// A record of the auction exists already, so none can be allocated.
    AuctionExists,
    /// The auction is not active, so it cannot be completed.
    AuctionNotActive,
    /// The redemption that the reconciliation rests on was refused.
    Redemption(TokenRouterError),
}

} // verus!
