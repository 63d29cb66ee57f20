//! The record of a redeemed transfer.

use vstd::prelude::*;

verus! {

/// Which delivery path recorded a fill.
#[derive(Debug, Clone, Copy, PartialEq, Eq, Structural)]
pub enum FillType {
    /// Nothing is recorded yet.
    Unset,
    /// Recorded by the guaranteed path, from an attested deposit.
    WormholeCctpDeposit,
    /// Recorded by the fast path, from an executed auction.
    FastFill,
}

/// Who receives the funds of a transfer, and how much.
#[derive(Debug, Clone, Copy, PartialEq, Eq)]
pub struct Fill {
    /// Chain that the order was placed on.
    pub source_chain: u16,
    /// Sender of the order on that chain.
    pub order_sender: [u8; 32],
    /// Account entitled to the funds.
    pub redeemer: [u8; 32],
    /// Amount of the transfer.
    pub amount: u64,
}

/// Mathematical value of a [`Fill`].
pub struct FillView {
    pub source_chain: u16,
    pub order_sender: Seq<u8>,
    pub redeemer: Seq<u8>,
    pub amount: u64,
}

impl View for Fill {
    type V = FillView;

    open spec fn view(&self) -> FillView {
        FillView {
            source_chain: self.source_chain,
            order_sender: self.order_sender@,
            redeemer: self.redeemer@,
            amount: self.amount,
        }
    }
}

/// The record of one transfer's redemption, kept under the digest of the
/// transfer's message. It starts out [`FillType::Unset`]; once it holds a
/// fill, it is never written again.
#[derive(Debug, Clone, Copy, PartialEq, Eq)]
pub struct PreparedFill {
    /// Digest of the message that the fill was taken from.
    pub vaa_hash: [u8; 32],
    pub bump: u8,
    /// Account entitled to the funds.
    pub redeemer: [u8; 32],
    /// Who paid for the record.
    pub prepared_by: [u8; 32],
    /// Path that recorded the fill.
    pub fill_type: FillType,
    /// Chain that the order was placed on.
    pub source_chain: u16,
    /// Sender of the order on that chain.
    pub order_sender: [u8; 32],
    /// Amount of the transfer.
    pub amount: u64,
}

/// Mathematical value of a [`PreparedFill`].
pub struct PreparedFillView {
    pub vaa_hash: Seq<u8>,
    pub bump: u8,
    pub redeemer: Seq<u8>,
    pub prepared_by: Seq<u8>,
    pub fill_type: FillType,
    pub source_chain: u16,
    pub order_sender: Seq<u8>,
    pub amount: u64,
}

impl View for PreparedFill {
    type V = PreparedFillView;

    open spec fn view(&self) -> PreparedFillView {
        PreparedFillView {
            vaa_hash: self.vaa_hash@,
            bump: self.bump,
            redeemer: self.redeemer@,
            prepared_by: self.prepared_by@,
            fill_type: self.fill_type,
            source_chain: self.source_chain,
            order_sender: self.order_sender@,
            amount: self.amount,
        }
    }
}

/// Thirty-two zero bytes.
pub open spec fn zero_bytes32() -> Seq<u8> {
    Seq::new(32, |i: int| 0u8)
}

impl PreparedFillView {
    /// A record as it is allocated: all zero, holding no fill.
    pub open spec fn unset() -> PreparedFillView {
        PreparedFillView {
            vaa_hash: zero_bytes32(),
            bump: 0,
            redeemer: zero_bytes32(),
            prepared_by: zero_bytes32(),
            fill_type: FillType::Unset,
            source_chain: 0,
            order_sender: zero_bytes32(),
            amount: 0,
        }
    }

    /// Whether the record holds a fill.
    pub open spec fn is_set(self) -> bool {
        self.fill_type != FillType::Unset
    }

    /// The fill that the record holds.
    pub open spec fn fill(self) -> FillView {
        FillView {
            source_chain: self.source_chain,
            order_sender: self.order_sender,
            redeemer: self.redeemer,
            amount: self.amount,
        }
    }

    /// The record of `fill`, as `fill_type` writes it under `vaa_hash` for
    /// the payer `prepared_by`.
    pub open spec fn of(
        vaa_hash: Seq<u8>,
        bump: u8,
        prepared_by: Seq<u8>,
        fill_type: FillType,
        fill: FillView,
    ) -> PreparedFillView {
        PreparedFillView {
            vaa_hash,
            bump,
            redeemer: fill.redeemer,
            prepared_by,
            fill_type,
            source_chain: fill.source_chain,
            order_sender: fill.order_sender,
            amount: fill.amount,
        }
    }
}

impl PreparedFill {
    /// A record as it is allocated: all zero, holding no fill.
    pub fn unset() -> (record: PreparedFill)
        ensures
            record@ == PreparedFillView::unset(),
    {
        let zero: [u8; 32] = [0u8; 32];
        assert(zero@ =~= zero_bytes32());
        PreparedFill {
            vaa_hash: zero,
            bump: 0,
            redeemer: zero,
            prepared_by: zero,
            fill_type: FillType::Unset,
            source_chain: 0,
            order_sender: zero,
            amount: 0,
        }
    }

    /// Whether the record holds a fill.
    pub fn is_set(&self) -> (set: bool)
        ensures
            set == self@.is_set(),
    {
        match self.fill_type {
            FillType::Unset => false,
            _ => true,
        }
    }

    /// The fill that the record holds.
    pub fn fill(&self) -> (fill: Fill)
        ensures
            fill@ == self@.fill(),
    {
        Fill {
            source_chain: self.source_chain,
            order_sender: self.order_sender,
            redeemer: self.redeemer,
            amount: self.amount,
        }
    }
}

} // verus!
