//! Redemption of a transfer into its record, once and only once.
//!
//! A redemption runs in two steps around the attestation protocol, which this
//! library does not call. [`redeem_cctp_fill`] decides: a record that holds a
//! fill makes the redemption a no-op; an empty record makes it announce the
//! message that the protocol has to verify and mint for, after the message
//! has passed every check that can be made without the protocol. When the
//! protocol has minted, [`handle_redeem_fill_cctp`] writes the record.
//!
//! Validation thus stands before any movement of funds: a message that is
//! refused here has caused no mint.

use crate::deposit::redeemable_fill;
use crate::deposit::spec_redeemable_fill;
use crate::deposit::view_ok;
use crate::error::TokenRouterError;
use crate::state::FillType;
use crate::state::PreparedFill;
use crate::state::PreparedFillView;
use crate::state::RouterEndpoint;
use crate::state::RouterEndpointView;
use crate::vaa::VaaMessage;
use crate::vaa::VaaMessageView;
use vstd::prelude::*;

verus! {

/// The path over which a transfer is delivered.
#[derive(Debug, Clone, Copy, PartialEq, Eq, Structural)]
pub enum DeliveryPath {
    /// The slow path, backed by an attestation that always arrives in the end.
    Guaranteed,
    /// The fast path, paid out of an auction.
    Fast,
}

impl DeliveryPath {
    /// The mark that a fill recorded over this path bears.
    pub open spec fn spec_fill_type(self) -> FillType {
        match self {
            DeliveryPath::Guaranteed => FillType::WormholeCctpDeposit,
            DeliveryPath::Fast => FillType::FastFill,
        }
    }

    /// The mark that a fill recorded over this path bears. It is never
    /// [`FillType::Unset`].
    #[verifier::when_used_as_spec(spec_fill_type)]
    pub fn fill_type(self) -> (mark: FillType)
        ensures
            mark == self.spec_fill_type(),
            mark != FillType::Unset,
    {
        match self {
            DeliveryPath::Guaranteed => FillType::WormholeCctpDeposit,
            DeliveryPath::Fast => FillType::FastFill,
        }
    }
}

/// Arguments of a redemption: the transfer message of the attestation
/// protocol and the attestation that vouches for it.
#[derive(Debug, Clone, PartialEq, Eq)]
pub struct CctpMessageArgs {
    /// CCTP message.
    pub encoded_cctp_message: Vec<u8>,
    /// Attestation of [encoded_cctp_message](Self::encoded_cctp_message).
    pub cctp_attestation: Vec<u8>,
}

/// What is handed to the attestation protocol to verify and mint for.
#[derive(Debug, Clone, PartialEq, Eq)]
pub struct ReceiveMessageArgs {
    pub encoded_message: Vec<u8>,
    pub attestation: Vec<u8>,
}

/// What a redemption has to do next.
#[derive(Debug, Clone, PartialEq, Eq)]
pub enum RedeemStep {
    /// The transfer is redeemed already. Nothing is verified, minted or
    /// written.
    Noop,
    /// The transfer is new and its message is in order: have the protocol
    /// verify the attestation and mint, then write the record.
    VerifyAndMint(ReceiveMessageArgs),
}

/// Mathematical value of a [`RedeemStep`].
pub enum RedeemStepView {
    Noop,
    VerifyAndMint { encoded_message: Seq<u8>, attestation: Seq<u8> },
}

impl View for RedeemStep {
    type V = RedeemStepView;

    open spec fn view(&self) -> RedeemStepView {
        match self {
            RedeemStep::Noop => RedeemStepView::Noop,
            RedeemStep::VerifyAndMint(args) => RedeemStepView::VerifyAndMint {
                encoded_message: args.encoded_message@,
                attestation: args.attestation@,
            },
        }
    }
}

/// What a redemption reads and writes.
#[derive(Debug, Clone, PartialEq, Eq)]
pub struct RedeemCctpFill {
    /// Who pays for the record.
    pub payer: [u8; 32],
    /// The attested message of the transfer.
    pub vaa: VaaMessage,
    /// The transfer's record, as the store holds it under the digest of
    /// `vaa`: empty where the transfer was never redeemed.
    pub prepared_fill: PreparedFill,
    pub prepared_fill_bump: u8,
    /// The router registered for the chain that `vaa` claims to come from.
    pub router_endpoint: RouterEndpoint,
}

/// The next step of a redemption that finds `record` for the transfer of
/// `vaa`, or the reason why the transfer cannot be redeemed.
pub open spec fn spec_redeem_step(
    record: PreparedFillView,
    vaa: VaaMessageView,
    endpoint: RouterEndpointView,
    encoded_message: Seq<u8>,
    attestation: Seq<u8>,
) -> Result<RedeemStepView, TokenRouterError> {
    if record.is_set() {
        Ok(RedeemStepView::Noop)
    } else {
        match spec_redeemable_fill(vaa, endpoint) {
            Err(error) => Err(error),
            Ok(_) => Ok(RedeemStepView::VerifyAndMint { encoded_message, attestation }),
        }
    }
}

/// The record that a redemption over a path of mark `fill_type` leaves where
/// it found `record`, and how the redemption ends.
///
/// A record that holds a fill stays as it is, whatever the message says. An
/// empty record takes the fill that the message announces; if the message
/// announces none, the record stays empty and the reason is returned.
pub open spec fn spec_write_fill(
    record: PreparedFillView,
    vaa: VaaMessageView,
    endpoint: RouterEndpointView,
    payer: Seq<u8>,
    bump: u8,
    fill_type: FillType,
) -> (PreparedFillView, Result<(), TokenRouterError>) {
    if record.is_set() {
        (record, Ok(()))
    } else {
        match spec_redeemable_fill(vaa, endpoint) {
            Err(error) => (record, Err(error)),
            Ok(fill) => (PreparedFillView::of(vaa.digest, bump, payer, fill_type, fill), Ok(())),
        }
    }
}

/// Decides the next step of a redemption.
///
/// On a record that holds a fill the answer is [`RedeemStep::Noop`], whatever
/// the message and the arguments are: nothing is verified. On an empty record
/// the message is validated; a refused message ends the redemption with its
/// error, an accepted one asks for the mint with exactly `args`.
pub fn redeem_cctp_fill(ctx: &RedeemCctpFill, args: CctpMessageArgs) -> (step: Result<
    RedeemStep,
    TokenRouterError,
>)
    ensures
        view_ok(step) == spec_redeem_step(
            ctx.prepared_fill@,
            ctx.vaa@,
            ctx.router_endpoint@,
            args.encoded_cctp_message@,
            args.cctp_attestation@,
        ),
{
    match ctx.prepared_fill.fill_type {
        FillType::Unset => match redeemable_fill(&ctx.vaa, &ctx.router_endpoint) {
            Err(error) => Err(error),
            Ok(_) => Ok(
                RedeemStep::VerifyAndMint(
                    ReceiveMessageArgs {
                        encoded_message: args.encoded_cctp_message,
                        attestation: args.cctp_attestation,
                    },
                ),
            ),
        },
        _ => Ok(RedeemStep::Noop),
    }
}

/// Writes the record of a transfer delivered over `path`, after the protocol
/// has minted for it.
///
/// The record is written at most once: where it holds a fill already, the
/// call succeeds and changes nothing. A refused message changes nothing
/// either.
pub fn handle_redeem_fill(ctx: &mut RedeemCctpFill, path: DeliveryPath) -> (done: Result<
    (),
    TokenRouterError,
>)
    ensures
        (final(ctx).prepared_fill@, done) == spec_write_fill(
            old(ctx).prepared_fill@,
            old(ctx).vaa@,
            old(ctx).router_endpoint@,
            old(ctx).payer@,
            old(ctx).prepared_fill_bump,
            path.spec_fill_type(),
        ),
        done is Err || old(ctx).prepared_fill@.is_set() ==> *final(ctx) == *old(ctx),
        final(ctx).payer == old(ctx).payer,
        final(ctx).vaa == old(ctx).vaa,
        final(ctx).prepared_fill_bump == old(ctx).prepared_fill_bump,
        final(ctx).router_endpoint == old(ctx).router_endpoint,
{
    if ctx.prepared_fill.is_set() {
        return Ok(());
    }
    // Validate that this message originated from a registered emitter, carries a deposit of
    // ours, and that the deposit is a fill we recognize.
    let fill = match redeemable_fill(&ctx.vaa, &ctx.router_endpoint) {
        Ok(fill) => fill,
        Err(error) => {
            return Err(error);
        },
    };

    // Set prepared fill data.
    ctx.prepared_fill = PreparedFill {
        vaa_hash: ctx.vaa.digest,
        bump: ctx.prepared_fill_bump,
        redeemer: fill.redeemer,
        prepared_by: ctx.payer,
        fill_type: path.fill_type(),
        source_chain: fill.source_chain,
        order_sender: fill.order_sender,
        amount: fill.amount,
    };

    // Done.
    Ok(())
}

/// Writes the record of a transfer delivered over the guaranteed path, after
/// the protocol has minted for it. See [`handle_redeem_fill`].
pub fn handle_redeem_fill_cctp(ctx: &mut RedeemCctpFill) -> (done: Result<(), TokenRouterError>)
    ensures
        (final(ctx).prepared_fill@, done) == spec_write_fill(
            old(ctx).prepared_fill@,
            old(ctx).vaa@,
            old(ctx).router_endpoint@,
            old(ctx).payer@,
            old(ctx).prepared_fill_bump,
            FillType::WormholeCctpDeposit,
        ),
        done is Err || old(ctx).prepared_fill@.is_set() ==> *final(ctx) == *old(ctx),
        final(ctx).payer == old(ctx).payer,
        final(ctx).vaa == old(ctx).vaa,
        final(ctx).prepared_fill_bump == old(ctx).prepared_fill_bump,
        final(ctx).router_endpoint == old(ctx).router_endpoint,
{
    handle_redeem_fill(ctx, DeliveryPath::Guaranteed)
}

} // verus!
