//! Messages that a deposit carries in its payload.
//!
//! A message is one kind byte followed by a body. Integers are big-endian.
//!
//! Fill, kind `11`:
//!
//! | offset | length | field                          |
//! |-------:|-------:|--------------------------------|
//! |      0 |      2 | source chain                   |
//! |      2 |     32 | order sender                   |
//! |     34 |     32 | redeemer                       |
//! |     66 |      4 | length of the redeemer message |
//! |     70 |      … | redeemer message               |
//!
//! Fast fill, kind `12`: the body of a fill, followed by a 16-byte amount.
//!
//! Slow order response, kind `14`: a 16-byte base fee and nothing else.
//!
//! Kinds `1` to `10` belong to the deposit envelope itself and never appear
//! here.

use crate::bytes::be_value;
use crate::bytes::read_array;
use crate::bytes::read_bytes;
use crate::bytes::read_u16_be;
use crate::bytes::read_u32_be;
use vstd::prelude::*;
use vstd::slice::slice_subrange;

verus! {

/// Kind byte of a fill.
pub const FILL_KIND: u8 = 11;

/// Kind byte of a fast fill.
pub const FAST_FILL_KIND: u8 = 12;

/// Kind byte of a slow order response.
pub const SLOW_ORDER_RESPONSE_KIND: u8 = 14;

/// Bytes of a fill's body that precede its redeemer message.
pub const FILL_HEADER_LEN: usize = 70;

/// Bytes of the wide integers that close a fast fill and make up a slow order
/// response.
pub const WIDE_LEN: usize = 16;

/// Who may redeem a transfer, and where the order came from.
#[derive(Debug, Clone, PartialEq, Eq)]
pub struct FillMessage {
    /// Chain that the order was placed on.
    pub source_chain: u16,
    /// Sender of the order on that chain.
    pub order_sender: [u8; 32],
    /// Account entitled to the funds.
    pub redeemer: [u8; 32],
    /// Message for the redeemer.
    pub redeemer_message: Vec<u8>,
}

/// A fill paid out of an executed auction, with the amount paid.
#[derive(Debug, Clone, PartialEq, Eq)]
pub struct FastFillMessage {
    pub fill: FillMessage,
    /// Amount of the fill: a 128-bit big-endian integer.
    pub amount: [u8; 16],
}

/// Answer of the slow path to a fast order.
#[derive(Debug, Clone, PartialEq, Eq)]
pub struct SlowOrderResponse {
    /// Fee owed for relaying: a 128-bit big-endian integer.
    pub base_fee: [u8; 16],
}

/// A message carried in a deposit's payload.
#[derive(Debug, Clone, PartialEq, Eq)]
pub enum LiquidityLayerDepositMessage {
    Fill(FillMessage),
    FastFill(FastFillMessage),
    SlowOrderResponse(SlowOrderResponse),
}

/// Mathematical value of a [`FillMessage`].
pub struct FillMessageView {
    pub source_chain: u16,
    pub order_sender: Seq<u8>,
    pub redeemer: Seq<u8>,
    pub redeemer_message: Seq<u8>,
}

/// Mathematical value of a [`FastFillMessage`].
pub struct FastFillMessageView {
    pub fill: FillMessageView,
    pub amount: Seq<u8>,
}

/// Mathematical value of a [`SlowOrderResponse`].
pub struct SlowOrderResponseView {
    pub base_fee: Seq<u8>,
}

/// Mathematical value of a [`LiquidityLayerDepositMessage`].
pub enum LiquidityLayerDepositMessageView {
    Fill(FillMessageView),
    FastFill(FastFillMessageView),
    SlowOrderResponse(SlowOrderResponseView),
}

impl View for FillMessage {
    type V = FillMessageView;

    open spec fn view(&self) -> FillMessageView {
        FillMessageView {
            source_chain: self.source_chain,
            order_sender: self.order_sender@,
            redeemer: self.redeemer@,
            redeemer_message: self.redeemer_message@,
        }
    }
}

impl View for FastFillMessage {
    type V = FastFillMessageView;

    open spec fn view(&self) -> FastFillMessageView {
        FastFillMessageView { fill: self.fill@, amount: self.amount@ }
    }
}

impl View for SlowOrderResponse {
    type V = SlowOrderResponseView;

    open spec fn view(&self) -> SlowOrderResponseView {
        SlowOrderResponseView { base_fee: self.base_fee@ }
    }
}

impl View for LiquidityLayerDepositMessage {
    type V = LiquidityLayerDepositMessageView;

    open spec fn view(&self) -> LiquidityLayerDepositMessageView {
        match self {
            LiquidityLayerDepositMessage::Fill(m) => LiquidityLayerDepositMessageView::Fill(m@),
            LiquidityLayerDepositMessage::FastFill(m) => LiquidityLayerDepositMessageView::FastFill(
                m@,
            ),
            LiquidityLayerDepositMessage::SlowOrderResponse(m) =>
                LiquidityLayerDepositMessageView::SlowOrderResponse(m@),
        }
    }
}

/// Whether `body` is the body of a fill: a whole header, and a redeemer
/// message of exactly the length the header states.
pub open spec fn is_fill_body(body: Seq<u8>) -> bool {
    &&& body.len() >= FILL_HEADER_LEN
    &&& be_value(body.subrange(66, 70)) == body.len() - FILL_HEADER_LEN
}

/// The fill that a fill body encodes.
pub open spec fn spec_fill_body(body: Seq<u8>) -> FillMessageView {
    FillMessageView {
        source_chain: be_value(body.subrange(0, 2)) as u16,
        order_sender: body.subrange(2, 34),
        redeemer: body.subrange(34, 66),
        redeemer_message: body.subrange(FILL_HEADER_LEN as int, body.len() as int),
    }
}

/// The message that `payload` encodes; `None` where it encodes none.
pub open spec fn spec_parse_message(payload: Seq<u8>) -> Option<LiquidityLayerDepositMessageView> {
    if payload.len() == 0 {
        None
    } else {
        let body = payload.subrange(1, payload.len() as int);
        if payload[0] == FILL_KIND {
            if is_fill_body(body) {
                Some(LiquidityLayerDepositMessageView::Fill(spec_fill_body(body)))
            } else {
                None
            }
        } else if payload[0] == FAST_FILL_KIND {
            let fill = body.subrange(0, body.len() - WIDE_LEN);
            if body.len() >= WIDE_LEN && is_fill_body(fill) {
                Some(
                    LiquidityLayerDepositMessageView::FastFill(
                        FastFillMessageView {
                            fill: spec_fill_body(fill),
                            amount: body.subrange(body.len() - WIDE_LEN, body.len() as int),
                        },
                    ),
                )
            } else {
                None
            }
        } else if payload[0] == SLOW_ORDER_RESPONSE_KIND {
            if body.len() == WIDE_LEN {
                Some(
                    LiquidityLayerDepositMessageView::SlowOrderResponse(
                        SlowOrderResponseView { base_fee: body },
                    ),
                )
            } else {
                None
            }
        } else {
            None
        }
    }
}

/// Parses the body of a fill.
fn parse_fill_body(body: &[u8]) -> (fill: Option<FillMessage>)
    ensures
        match fill {
            Some(m) => is_fill_body(body@) && m@ == spec_fill_body(body@),
            None => !is_fill_body(body@),
        },
{
    let len: usize = body.len();
    if len < FILL_HEADER_LEN {
        return None;
    }
    let stated: u32 = read_u32_be(body, 66);
    if stated as u64 != (len - FILL_HEADER_LEN) as u64 {
        return None;
    }
    Some(
        FillMessage {
            source_chain: read_u16_be(body, 0),
            order_sender: read_array::<32>(body, 2),
            redeemer: read_array::<32>(body, 34),
            redeemer_message: read_bytes(body, FILL_HEADER_LEN, len),
        },
    )
}

impl LiquidityLayerDepositMessage {
    /// Parses a deposit's payload as a message: `Some` exactly for the
    /// payloads that are a known kind byte followed by a well-formed body of
    /// that kind.
    pub fn parse(payload: &[u8]) -> (message: Option<LiquidityLayerDepositMessage>)
        ensures
            match message {
                Some(m) => spec_parse_message(payload@) == Some(m@),
                None => spec_parse_message(payload@) is None,
            },
    {
        let len: usize = payload.len();
        if len == 0 {
            return None;
        }
        let kind: u8 = payload[0];
        let body = slice_subrange(payload, 1, len);
        if kind == FILL_KIND {
            match parse_fill_body(body) {
                Some(fill) => Some(LiquidityLayerDepositMessage::Fill(fill)),
                None => None,
            }
        } else if kind == FAST_FILL_KIND {
            if len - 1 < WIDE_LEN {
                return None;
            }
            let split: usize = len - 1 - WIDE_LEN;
            match parse_fill_body(slice_subrange(body, 0, split)) {
                Some(fill) => Some(
                    LiquidityLayerDepositMessage::FastFill(
                        FastFillMessage { fill, amount: read_array::<16>(body, split) },
                    ),
                ),
                None => None,
            }
        } else if kind == SLOW_ORDER_RESPONSE_KIND {
            if len - 1 != WIDE_LEN {
                return None;
            }
            let base_fee = read_array::<16>(body, 0);
            assert(body@.subrange(0, 16) =~= body@);
            Some(LiquidityLayerDepositMessage::SlowOrderResponse(SlowOrderResponse { base_fee }))
        } else {
            None
        }
    }

    /// The fill that this message is, if it is one.
    pub fn fill(&self) -> (fill: Option<&FillMessage>)
        ensures
            match fill {
                Some(m) => *self == LiquidityLayerDepositMessage::Fill(*m),
                None => !(self is Fill),
            },
    {
        match self {
            LiquidityLayerDepositMessage::Fill(m) => Some(m),
            _ => None,
        }
    }
}

} // verus!
