//! Settlement of a transfer over the guaranteed path when no auction was
//! ever opened for it.
//!
//! The transfer is redeemed, and its auction is marked completed in the same
//! step, so that an offer arriving later finds nothing left to pay out.

use crate::deposit::view_ok;
use crate::error::MatchingEngineError;
use crate::error::TokenRouterError;
use crate::redeem_fill::handle_redeem_fill_cctp;
use crate::redeem_fill::redeem_cctp_fill;
use crate::redeem_fill::spec_redeem_step;
use crate::redeem_fill::spec_write_fill;
use crate::redeem_fill::CctpMessageArgs;
use crate::redeem_fill::RedeemCctpFill;
use crate::redeem_fill::RedeemStep;
use crate::redeem_fill::RedeemStepView;
use crate::state::AuctionData;
use crate::state::AuctionDataView;
use crate::state::AuctionStatus;
use crate::state::FillType;
use vstd::prelude::*;

verus! {

/// What the settlement of a slow order without auction reads and writes.
#[derive(Debug, Clone, PartialEq, Eq)]
pub struct ExecuteSlowOrderNoAuction {
    /// The redemption that the settlement rests on.
    pub redeem: RedeemCctpFill,
    /// The transfer's auction record. There should be no auction data here,
    /// because an auction was never created: the record is newly allocated.
    pub auction_data: AuctionData,
}

/// The view of a redemption step result, with a refusal marked as one of the
/// redemption.
pub open spec fn as_engine_step(step: Result<RedeemStepView, TokenRouterError>) -> Result<
    RedeemStepView,
    MatchingEngineError,
> {
    match step {
        Ok(step) => Ok(step),
        Err(error) => Err(MatchingEngineError::Redemption(error)),
    }
}

/// Decides the next step of the settlement: that of the redemption it rests
/// on. A refused message ends the settlement before anything is minted.
pub fn prepare_execute_slow_order(ctx: &ExecuteSlowOrderNoAuction, args: CctpMessageArgs) -> (step:
    Result<RedeemStep, MatchingEngineError>)
    ensures
        view_ok(step) == as_engine_step(
            spec_redeem_step(
                ctx.redeem.prepared_fill@,
                ctx.redeem.vaa@,
                ctx.redeem.router_endpoint@,
                args.encoded_cctp_message@,
                args.cctp_attestation@,
            ),
        ),
{
    match redeem_cctp_fill(&ctx.redeem, args) {
        Ok(step) => Ok(step),
        Err(error) => Err(MatchingEngineError::Redemption(error)),
    }
}

/// Settles a transfer for which no auction exists, after the protocol has
/// minted for it: writes the transfer's record over the guaranteed path and
/// moves the auction from `NotStarted` straight to `Completed`.
///
/// Either both happen or neither: where the redemption is refused, the
/// auction record stays as it was allocated and the error is returned.
pub fn execute_slow_order_no_auction(ctx: &mut ExecuteSlowOrderNoAuction) -> (done: Result<
    (),
    MatchingEngineError,
>)
    requires
        old(ctx).auction_data.status is NotStarted,
    ensures
        ({
            let (record, written) = spec_write_fill(
                old(ctx).redeem.prepared_fill@,
                old(ctx).redeem.vaa@,
                old(ctx).redeem.router_endpoint@,
                old(ctx).redeem.payer@,
                old(ctx).redeem.prepared_fill_bump,
                FillType::WormholeCctpDeposit,
            );
            match written {
                Ok(_) => {
                    &&& done is Ok
                    &&& final(ctx).redeem.prepared_fill@ == record
                    &&& final(ctx).auction_data@ == (AuctionDataView {
                        status: AuctionStatus::Completed,
                        ..old(ctx).auction_data@
                    })
                },
                Err(error) => {
                    &&& done == Err::<(), MatchingEngineError>(
                        MatchingEngineError::Redemption(error),
                    )
                    &&& *final(ctx) == *old(ctx)
                },
            }
        }),
        final(ctx).redeem.payer == old(ctx).redeem.payer,
        final(ctx).redeem.vaa == old(ctx).redeem.vaa,
        final(ctx).redeem.prepared_fill_bump == old(ctx).redeem.prepared_fill_bump,
        final(ctx).redeem.router_endpoint == old(ctx).redeem.router_endpoint,
{
    // NOTE: We do not need the return values here for this instruction.
    match handle_redeem_fill_cctp(&mut ctx.redeem) {
        Ok(()) => {},
        Err(error) => {
            return Err(MatchingEngineError::Redemption(error));
        },
    }

    // SECURITY: this is a necessary security check. This will prevent a relayer from starting an
    // auction with the fast transfer message, even though the slow relayer already delivered the
    // slow one. Not setting this could lead to trapped funds.
    ctx.auction_data.status = AuctionStatus::Completed;

    Ok(())
}

} // verus!
