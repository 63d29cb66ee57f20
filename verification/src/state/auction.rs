//! The record of a transfer's auction.

use vstd::prelude::*;

verus! {

/// How far a transfer's auction has come. The status only ever moves forward:
/// from `NotStarted` to `Active` to `Completed`, or from `NotStarted` straight
/// to `Completed` where the guaranteed path settles a transfer that was never
/// auctioned. Nothing leaves `Completed`.
#[derive(Debug, Clone, Copy, PartialEq, Eq, Structural)]
pub enum AuctionStatus {
    NotStarted,
    Active,
    Completed,
}

impl AuctionStatus {
    /// Position of the status in the order of progress.
    pub open spec fn rank(self) -> nat {
        match self {
            AuctionStatus::NotStarted => 0,
            AuctionStatus::Active => 1,
            AuctionStatus::Completed => 2,
        }
    }

    /// Whether an auction may move from `self` to `next` in one step.
    pub open spec fn spec_can_become(self, next: AuctionStatus) -> bool {
        self.rank() < next.rank()
    }

    /// Whether an auction may move from `self` to `next` in one step.
    #[verifier::when_used_as_spec(spec_can_become)]
    pub fn can_become(self, next: AuctionStatus) -> (allowed: bool)
        ensures
            allowed == self.spec_can_become(next),
    {
        match (self, next) {
            (AuctionStatus::NotStarted, AuctionStatus::Active) => true,
            (AuctionStatus::NotStarted, AuctionStatus::Completed) => true,
            (AuctionStatus::Active, AuctionStatus::Completed) => true,
            _ => false,
        }
    }
}

/// The record of one transfer's auction, kept under the digest of the
/// transfer's message.
#[derive(Debug, Clone, Copy, PartialEq, Eq)]
pub struct AuctionData {
    pub bump: u8,
    /// Digest of the message that the auction is about.
    pub vaa_hash: [u8; 32],
    pub status: AuctionStatus,
}

/// Mathematical value of an [`AuctionData`].
pub struct AuctionDataView {
    pub bump: u8,
    pub vaa_hash: Seq<u8>,
    pub status: AuctionStatus,
}

impl View for AuctionData {
    type V = AuctionDataView;

    open spec fn view(&self) -> AuctionDataView {
        AuctionDataView { bump: self.bump, vaa_hash: self.vaa_hash@, status: self.status }
    }
}

impl AuctionData {
    /// A record as it is allocated for the transfer of digest `vaa_hash`: no
    /// auction has started.
    pub fn new(vaa_hash: [u8; 32], bump: u8) -> (record: AuctionData)
        ensures
            record@ == (AuctionDataView { bump, vaa_hash: vaa_hash@, status: AuctionStatus::NotStarted }),
    {
        AuctionData { bump, vaa_hash, status: AuctionStatus::NotStarted }
    }

    /// Moves the auction to `next`, if the order of progress allows the step.
    /// Returns whether it did; a refused step leaves the record as it was.
    pub fn advance(&mut self, next: AuctionStatus) -> (moved: bool)
        ensures
            moved == old(self).status.spec_can_become(next),
            moved ==> final(self)@ == (AuctionDataView { status: next, ..old(self)@ }),
            !moved ==> *final(self) == *old(self),
    {
        if self.status.can_become(next) {
            self.status = next;
            true
        } else {
            false
        }
    }
}

} // verus!
