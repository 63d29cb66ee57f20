//! From an attested message to the fill it announces.
//!
//! Two steps, both pure. [`verify_deposit`] checks the message's emitter
//! against the registered router, unwraps the deposit envelope and narrows its
//! amount. [`decode_fill`] decodes the deposit's payload and insists on a
//! fill. [`redeemable_fill`] is the two in a row.

use crate::amount::narrow_amount;
use crate::amount::spec_narrow_amount;
use crate::cctp::parse_deposit_envelope;
use crate::cctp::spec_deposit_envelope;
use crate::error::TokenRouterError;
use crate::messages::spec_parse_message;
use crate::messages::LiquidityLayerDepositMessage;
use crate::messages::LiquidityLayerDepositMessageView;
use crate::state::Fill;
use crate::state::FillView;
use crate::state::RouterEndpoint;
use crate::state::RouterEndpointView;
use crate::vaa::VaaMessage;
use crate::vaa::VaaMessageView;
use vstd::prelude::*;

verus! {

/// A verified deposit: the envelope of a message from the registered router,
/// with its amount narrowed to the amounts settled here.
#[derive(Debug, Clone, PartialEq, Eq)]
pub struct Deposit {
    /// Amount of the transfer.
    pub amount: u64,
    /// Domain that the tokens were burnt on.
    pub source_domain: u32,
    /// Domain that the tokens are minted on.
    pub destination_domain: u32,
    /// Payload for the recipient of the deposit.
    pub payload: Vec<u8>,
}

/// Mathematical value of a [`Deposit`].
pub struct DepositView {
    pub amount: u64,
    pub source_domain: u32,
    pub destination_domain: u32,
    pub payload: Seq<u8>,
}

impl View for Deposit {
    type V = DepositView;

    open spec fn view(&self) -> DepositView {
        DepositView {
            amount: self.amount,
            source_domain: self.source_domain,
            destination_domain: self.destination_domain,
            payload: self.payload@,
        }
    }
}

/// The view of a result: the view of its value, or its error.
pub open spec fn view_ok<T: View, E>(result: Result<T, E>) -> Result<T::V, E> {
    match result {
        Ok(value) => Ok(value@),
        Err(error) => Err(error),
    }
}

/// The deposit that `vaa` carries, as `endpoint` lets it pass.
///
/// The checks come in this order, and the first that fails names the error:
/// the emitter is the registered router; the payload is a deposit envelope;
/// the envelope's amount fits 64 bits.
pub open spec fn spec_verify_deposit(vaa: VaaMessageView, endpoint: RouterEndpointView) -> Result<
    DepositView,
    TokenRouterError,
> {
    if !endpoint.is_emitter(vaa.emitter_chain, vaa.emitter_address) {
        Err(TokenRouterError::InvalidSourceRouter)
    } else {
        match spec_deposit_envelope(vaa.payload) {
            None => Err(TokenRouterError::InvalidEnvelope),
            Some(envelope) => match spec_narrow_amount(envelope.amount) {
                None => Err(TokenRouterError::AmountOverflow),
                Some(amount) => Ok(
                    DepositView {
                        amount,
                        source_domain: envelope.source_domain,
                        destination_domain: envelope.destination_domain,
                        payload: envelope.payload,
                    },
                ),
            },
        }
    }
}

/// The fill that `deposit` announces: its payload must parse as a message,
/// and the message must be a fill.
pub open spec fn spec_decode_fill(deposit: DepositView) -> Result<FillView, TokenRouterError> {
    match spec_parse_message(deposit.payload) {
        None => Err(TokenRouterError::InvalidDepositMessage),
        Some(LiquidityLayerDepositMessageView::Fill(message)) => Ok(
            FillView {
                source_chain: message.source_chain,
                order_sender: message.order_sender,
                redeemer: message.redeemer,
                amount: deposit.amount,
            },
        ),
        Some(_) => Err(TokenRouterError::InvalidPayloadId),
    }
}

/// The fill that `vaa` announces, as `endpoint` lets it pass: the deposit is
/// verified first, then decoded.
pub open spec fn spec_redeemable_fill(
    vaa: VaaMessageView,
    endpoint: RouterEndpointView,
) -> Result<FillView, TokenRouterError> {
    match spec_verify_deposit(vaa, endpoint) {
        Err(error) => Err(error),
        Ok(deposit) => spec_decode_fill(deposit),
    }
}

/// Verifies that `vaa` comes from the router registered in `endpoint` and
/// carries a deposit whose amount can be settled here.
pub fn verify_deposit(vaa: &VaaMessage, endpoint: &RouterEndpoint) -> (deposit: Result<
    Deposit,
    TokenRouterError,
>)
    ensures
        view_ok(deposit) == spec_verify_deposit(vaa@, endpoint@),
{
    if !endpoint.is_emitter(vaa.emitter_chain, &vaa.emitter_address) {
        return Err(TokenRouterError::InvalidSourceRouter);
    }
    let envelope = match parse_deposit_envelope(vaa.payload.as_slice()) {
        Some(envelope) => envelope,
        None => {
            return Err(TokenRouterError::InvalidEnvelope);
        },
    };
    let amount: u64 = match narrow_amount(&envelope.amount) {
        Some(amount) => amount,
        None => {
            return Err(TokenRouterError::AmountOverflow);
        },
    };
    Ok(
        Deposit {
            amount,
            source_domain: envelope.source_domain,
            destination_domain: envelope.destination_domain,
            payload: envelope.payload,
        },
    )
}

/// Decodes the payload of `deposit` and takes the fill out of it.
pub fn decode_fill(deposit: &Deposit) -> (fill: Result<Fill, TokenRouterError>)
    ensures
        view_ok(fill) == spec_decode_fill(deposit@),
{
    match LiquidityLayerDepositMessage::parse(deposit.payload.as_slice()) {
        None => Err(TokenRouterError::InvalidDepositMessage),
        Some(LiquidityLayerDepositMessage::Fill(message)) => Ok(
            Fill {
                source_chain: message.source_chain,
                order_sender: message.order_sender,
                redeemer: message.redeemer,
                amount: deposit.amount,
            },
        ),
        Some(_) => Err(TokenRouterError::InvalidPayloadId),
    }
}

/// The fill that `vaa` announces, or the first reason why it announces none.
pub fn redeemable_fill(vaa: &VaaMessage, endpoint: &RouterEndpoint) -> (fill: Result<
    Fill,
    TokenRouterError,
>)
    ensures
        view_ok(fill) == spec_redeemable_fill(vaa@, endpoint@),
{
    match verify_deposit(vaa, endpoint) {
        Err(error) => Err(error),
        Ok(deposit) => decode_fill(&deposit),
    }
}

} // verus!
