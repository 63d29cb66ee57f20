//! The store of settlement records, keyed by the digest of a transfer's
//! message.
//!
//! The store holds two families of records, fills and auctions, and at most
//! one record of each family per digest. A fill is stored only once it is
//! written, an auction only once it has started, so that no half-made record
//! is ever seen. Allocation is the lock: whoever stores a digest's record
//! first has settled the transfer, and every later attempt finds the record
//! and changes nothing.
//!
//! What each operation does is defined on the mathematical model of the
//! store, two maps from digest to record: [`spec_redeem`],
//! [`spec_finalize`], [`spec_start_auction`] and [`spec_complete_auction`].

use crate::deposit::view_ok;
use crate::error::MatchingEngineError;
use crate::error::TokenRouterError;
use crate::execute_slow_order::as_engine_step;
use crate::execute_slow_order::execute_slow_order_no_auction;
use crate::execute_slow_order::prepare_execute_slow_order;
use crate::execute_slow_order::ExecuteSlowOrderNoAuction;
use crate::redeem_fill::handle_redeem_fill;
use crate::redeem_fill::redeem_cctp_fill;
use crate::redeem_fill::spec_redeem_step;
use crate::redeem_fill::spec_write_fill;
use crate::redeem_fill::CctpMessageArgs;
use crate::redeem_fill::DeliveryPath;
use crate::redeem_fill::RedeemCctpFill;
use crate::redeem_fill::RedeemStep;
use crate::redeem_fill::RedeemStepView;
use crate::state::AuctionData;
use crate::state::AuctionDataView;
use crate::state::AuctionStatus;
use crate::state::Fill;
use crate::state::FillType;
use crate::state::FillView;
use crate::state::PreparedFill;
use crate::state::PreparedFillView;
use crate::state::RouterEndpoint;
use crate::state::RouterEndpointView;
use crate::vaa::VaaMessage;
use crate::vaa::VaaMessageView;
use crate::bytes::bytes32_eq;
use vstd::prelude::*;

verus! {

/// How a redemption ended: the fill on record for the transfer, the path
/// that recorded it, and whether this very redemption recorded it.
#[derive(Debug, Clone, Copy, PartialEq, Eq)]
pub struct Redemption {
    /// The fill on record.
    pub fill: Fill,
    /// The mark of the path that recorded the fill.
    pub fill_type: FillType,
    /// Whether this redemption wrote the record. Funds are owed for a
    /// transfer exactly once, to the redemption that sees `true` here.
    pub newly_prepared: bool,
}

/// Mathematical value of a [`Redemption`].
pub struct RedemptionView {
    pub fill: FillView,
    pub fill_type: FillType,
    pub newly_prepared: bool,
}

impl View for Redemption {
    type V = RedemptionView;

    open spec fn view(&self) -> RedemptionView {
        RedemptionView {
            fill: self.fill@,
            fill_type: self.fill_type,
            newly_prepared: self.newly_prepared,
        }
    }
}

/// The fill record that a store of `fills` hands out for `digest`: the stored
/// one, or an empty one where none is stored.
pub open spec fn record_of(
    fills: Map<Seq<u8>, PreparedFillView>,
    digest: Seq<u8>,
) -> PreparedFillView {
    if fills.contains_key(digest) {
        fills[digest]
    } else {
        PreparedFillView::unset()
    }
}

/// The status of the auction of `digest` in a store of `auctions`: that of
/// the stored record, or `NotStarted` where none is stored.
pub open spec fn status_of(
    auctions: Map<Seq<u8>, AuctionDataView>,
    digest: Seq<u8>,
) -> AuctionStatus {
    if auctions.contains_key(digest) {
        auctions[digest].status
    } else {
        AuctionStatus::NotStarted
    }
}

/// Every stored fill is written and stands under the digest it records.
pub open spec fn consistent_fills(fills: Map<Seq<u8>, PreparedFillView>) -> bool {
    forall|digest: Seq<u8>| #[trigger]
        fills.contains_key(digest) ==> fills[digest].is_set() && fills[digest].vaa_hash == digest
}

/// Every stored auction has started and stands under the digest it is about.
pub open spec fn consistent_auctions(auctions: Map<Seq<u8>, AuctionDataView>) -> bool {
    forall|digest: Seq<u8>| #[trigger]
        auctions.contains_key(digest) ==> auctions[digest].status != AuctionStatus::NotStarted
            && auctions[digest].vaa_hash == digest
}

/// A redemption over `path` of the transfer that `vaa` announces, on a store
/// of `fills`: the store it leaves and how it ends.
///
/// Where the transfer's record is stored already, the redemption changes
/// nothing and reports the stored fill. Otherwise the message is validated;
/// a refusal changes nothing, an accepted message has its fill stored under
/// the message's digest.
pub open spec fn spec_redeem(
    fills: Map<Seq<u8>, PreparedFillView>,
    path: DeliveryPath,
    vaa: VaaMessageView,
    endpoint: RouterEndpointView,
    payer: Seq<u8>,
    bump: u8,
) -> (Map<Seq<u8>, PreparedFillView>, Result<RedemptionView, TokenRouterError>) {
    let found = record_of(fills, vaa.digest);
    let (record, written) = spec_write_fill(
        found,
        vaa,
        endpoint,
        payer,
        bump,
        path.spec_fill_type(),
    );
    match written {
        Err(error) => (fills, Err(error)),
        Ok(_) => (
            if found.is_set() {
                fills
            } else {
                fills.insert(vaa.digest, record)
            },
            Ok(
                RedemptionView {
                    fill: record.fill(),
                    fill_type: record.fill_type,
                    newly_prepared: !found.is_set(),
                },
            ),
        ),
    }
}

/// The settlement, over the guaranteed path, of a transfer for which no
/// auction exists: the two stores it leaves and how it ends.
///
/// Where an auction record is stored for the transfer, nothing can be
/// allocated and nothing changes. Otherwise the transfer is redeemed as by
/// [`spec_redeem`]; a refusal changes nothing, a success also stores the
/// auction as completed.
pub open spec fn spec_finalize(
    fills: Map<Seq<u8>, PreparedFillView>,
    auctions: Map<Seq<u8>, AuctionDataView>,
    vaa: VaaMessageView,
    endpoint: RouterEndpointView,
    payer: Seq<u8>,
    fill_bump: u8,
    auction_bump: u8,
) -> (
    Map<Seq<u8>, PreparedFillView>,
    Map<Seq<u8>, AuctionDataView>,
    Result<RedemptionView, MatchingEngineError>,
) {
    if auctions.contains_key(vaa.digest) {
        (fills, auctions, Err(MatchingEngineError::AuctionExists))
    } else {
        let (redeemed, redemption) = spec_redeem(
            fills,
            DeliveryPath::Guaranteed,
            vaa,
            endpoint,
            payer,
            fill_bump,
        );
        match redemption {
            Err(error) => (fills, auctions, Err(MatchingEngineError::Redemption(error))),
            Ok(redemption) => (
                redeemed,
                auctions.insert(
                    vaa.digest,
                    AuctionDataView {
                        bump: auction_bump,
                        vaa_hash: vaa.digest,
                        status: AuctionStatus::Completed,
                    },
                ),
                Ok(redemption),
            ),
        }
    }
}

/// The next step of a settlement without auction, on stores of `fills` and
/// `auctions`: refused where an auction record is stored, else the step of
/// the redemption.
pub open spec fn spec_finalize_step(
    fills: Map<Seq<u8>, PreparedFillView>,
    auctions: Map<Seq<u8>, AuctionDataView>,
    vaa: VaaMessageView,
    endpoint: RouterEndpointView,
    encoded_message: Seq<u8>,
    attestation: Seq<u8>,
) -> Result<RedeemStepView, MatchingEngineError> {
    if auctions.contains_key(vaa.digest) {
        Err(MatchingEngineError::AuctionExists)
    } else {
        as_engine_step(
            spec_redeem_step(
                record_of(fills, vaa.digest),
                vaa,
                endpoint,
                encoded_message,
                attestation,
            ),
        )
    }
}

/// The opening of an auction for `digest`: allocates its record as active,
/// or is refused where a record is stored already.
pub open spec fn spec_start_auction(
    auctions: Map<Seq<u8>, AuctionDataView>,
    digest: Seq<u8>,
    bump: u8,
) -> (Map<Seq<u8>, AuctionDataView>, Result<(), MatchingEngineError>) {
    if auctions.contains_key(digest) {
        (auctions, Err(MatchingEngineError::AuctionExists))
    } else {
        (
            auctions.insert(
                digest,
                AuctionDataView { bump, vaa_hash: digest, status: AuctionStatus::Active },
            ),
            Ok(()),
        )
    }
}

/// The completion of the auction of `digest`: moves an active auction to
/// completed, or is refused where the auction is not active.
pub open spec fn spec_complete_auction(
    auctions: Map<Seq<u8>, AuctionDataView>,
    digest: Seq<u8>,
) -> (Map<Seq<u8>, AuctionDataView>, Result<(), MatchingEngineError>) {
    if status_of(auctions, digest) == AuctionStatus::Active {
        (
            auctions.insert(
                digest,
                AuctionDataView { status: AuctionStatus::Completed, ..auctions[digest] },
            ),
            Ok(()),
        )
    } else {
        (auctions, Err(MatchingEngineError::AuctionNotActive))
    }
}

/// Whether one of `records` stands under `digest`.
spec fn has_fill(records: Seq<PreparedFill>, digest: Seq<u8>) -> bool {
    exists|i: int| 0 <= i < records.len() && (#[trigger] records[i]).vaa_hash@ == digest
}

/// Whether one of `records` stands under `digest`.
spec fn has_auction(records: Seq<AuctionData>, digest: Seq<u8>) -> bool {
    exists|i: int| 0 <= i < records.len() && (#[trigger] records[i]).vaa_hash@ == digest
}

/// No two of `records` stand under the same digest.
spec fn distinct_fills(records: Seq<PreparedFill>) -> bool {
    forall|i: int, j: int|
        0 <= i < j < records.len() ==> (#[trigger] records[i]).vaa_hash@ != (
        #[trigger] records[j]).vaa_hash@
}

/// No two of `records` stand under the same digest.
spec fn distinct_auctions(records: Seq<AuctionData>) -> bool {
    forall|i: int, j: int|
        0 <= i < j < records.len() ==> (#[trigger] records[i]).vaa_hash@ != (
        #[trigger] records[j]).vaa_hash@
}

/// The map from digest to record that `records` make up.
spec fn fills_map(records: Seq<PreparedFill>) -> Map<Seq<u8>, PreparedFillView> {
    Map::new(
        |digest: Seq<u8>| has_fill(records, digest),
        |digest: Seq<u8>|
            records[choose|i: int|
                0 <= i < records.len() && (#[trigger] records[i]).vaa_hash@ == digest]@,
    )
}

/// The map from digest to record that `records` make up.
spec fn auctions_map(records: Seq<AuctionData>) -> Map<Seq<u8>, AuctionDataView> {
    Map::new(
        |digest: Seq<u8>| has_auction(records, digest),
        |digest: Seq<u8>|
            records[choose|i: int|
                0 <= i < records.len() && (#[trigger] records[i]).vaa_hash@ == digest]@,
    )
}

/// In records of distinct digests, each record is what the map holds under
/// its digest.
proof fn lemma_fills_map_at(records: Seq<PreparedFill>, i: int)
    requires
        distinct_fills(records),
        0 <= i < records.len(),
    ensures
        fills_map(records).contains_key(records[i].vaa_hash@),
        fills_map(records)[records[i].vaa_hash@] == records[i]@,
{
    let digest = records[i].vaa_hash@;
    let j = choose|j: int| 0 <= j < records.len() && (#[trigger] records[j]).vaa_hash@ == digest;
    assert(j == i);
}

/// In records of distinct digests, each record is what the map holds under
/// its digest.
proof fn lemma_auctions_map_at(records: Seq<AuctionData>, i: int)
    requires
        distinct_auctions(records),
        0 <= i < records.len(),
    ensures
        auctions_map(records).contains_key(records[i].vaa_hash@),
        auctions_map(records)[records[i].vaa_hash@] == records[i]@,
{
    let digest = records[i].vaa_hash@;
    let j = choose|j: int| 0 <= j < records.len() && (#[trigger] records[j]).vaa_hash@ == digest;
    assert(j == i);
}

/// Appending a record under a new digest inserts it into the map.
proof fn lemma_fills_map_push(records: Seq<PreparedFill>, record: PreparedFill)
    requires
        distinct_fills(records),
        !has_fill(records, record.vaa_hash@),
    ensures
        distinct_fills(records.push(record)),
        fills_map(records.push(record)) == fills_map(records).insert(record.vaa_hash@, record@),
{
    let grown = records.push(record);
    assert forall|i: int, j: int| 0 <= i < j < grown.len() implies (#[trigger] grown[i]).vaa_hash@
        != (#[trigger] grown[j]).vaa_hash@ by {
        if j < records.len() {
            assert(records[i].vaa_hash@ != records[j].vaa_hash@);
        } else {
            assert(records[i].vaa_hash@ != record.vaa_hash@);
        }
    }
    let target = fills_map(records).insert(record.vaa_hash@, record@);
    assert forall|digest: Seq<u8>| #[trigger]
        fills_map(grown).contains_key(digest) == target.contains_key(digest) by {
        if has_fill(grown, digest) {
            let i = choose|i: int| 0 <= i < grown.len() && (#[trigger] grown[i]).vaa_hash@ == digest;
            if i < records.len() {
                assert(records[i].vaa_hash@ == digest);
            }
        }
        if has_fill(records, digest) {
            let i = choose|i: int|
                0 <= i < records.len() && (#[trigger] records[i]).vaa_hash@ == digest;
            assert(grown[i].vaa_hash@ == digest);
        }
        if digest == record.vaa_hash@ {
            assert(grown[records.len() as int].vaa_hash@ == digest);
        }
    }
    assert forall|digest: Seq<u8>| #[trigger] target.contains_key(digest) implies fills_map(
        grown,
    )[digest] == target[digest] by {
        assert(fills_map(grown).contains_key(digest));
        assert(has_fill(grown, digest));
        let i = choose|i: int| 0 <= i < grown.len() && (#[trigger] grown[i]).vaa_hash@ == digest;
        lemma_fills_map_at(grown, i);
        if i < records.len() {
            lemma_fills_map_at(records, i);
        }
    }
    assert(fills_map(grown) =~= target);
}

/// Appending a record under a new digest inserts it into the map.
proof fn lemma_auctions_map_push(records: Seq<AuctionData>, record: AuctionData)
    requires
        distinct_auctions(records),
        !has_auction(records, record.vaa_hash@),
    ensures
        distinct_auctions(records.push(record)),
        auctions_map(records.push(record)) == auctions_map(records).insert(
            record.vaa_hash@,
            record@,
        ),
{
    let grown = records.push(record);
    assert forall|i: int, j: int| 0 <= i < j < grown.len() implies (#[trigger] grown[i]).vaa_hash@
        != (#[trigger] grown[j]).vaa_hash@ by {
        if j < records.len() {
            assert(records[i].vaa_hash@ != records[j].vaa_hash@);
        } else {
            assert(records[i].vaa_hash@ != record.vaa_hash@);
        }
    }
    let target = auctions_map(records).insert(record.vaa_hash@, record@);
    assert forall|digest: Seq<u8>| #[trigger]
        auctions_map(grown).contains_key(digest) == target.contains_key(digest) by {
        if has_auction(grown, digest) {
            let i = choose|i: int| 0 <= i < grown.len() && (#[trigger] grown[i]).vaa_hash@ == digest;
            if i < records.len() {
                assert(records[i].vaa_hash@ == digest);
            }
        }
        if has_auction(records, digest) {
            let i = choose|i: int|
                0 <= i < records.len() && (#[trigger] records[i]).vaa_hash@ == digest;
            assert(grown[i].vaa_hash@ == digest);
        }
        if digest == record.vaa_hash@ {
            assert(grown[records.len() as int].vaa_hash@ == digest);
        }
    }
    assert forall|digest: Seq<u8>| #[trigger] target.contains_key(digest) implies auctions_map(
        grown,
    )[digest] == target[digest] by {
        assert(auctions_map(grown).contains_key(digest));
        assert(has_auction(grown, digest));
        let i = choose|i: int| 0 <= i < grown.len() && (#[trigger] grown[i]).vaa_hash@ == digest;
        lemma_auctions_map_at(grown, i);
        if i < records.len() {
            lemma_auctions_map_at(records, i);
        }
    }
    assert(auctions_map(grown) =~= target);
}

/// Replacing a record by one under the same digest replaces it in the map.
proof fn lemma_auctions_map_update(records: Seq<AuctionData>, at: int, record: AuctionData)
    requires
        distinct_auctions(records),
        0 <= at < records.len(),
        record.vaa_hash@ == records[at].vaa_hash@,
    ensures
        distinct_auctions(records.update(at, record)),
        auctions_map(records.update(at, record)) == auctions_map(records).insert(
            record.vaa_hash@,
            record@,
        ),
{
    let changed = records.update(at, record);
    assert forall|i: int, j: int| 0 <= i < j < changed.len() implies (
    #[trigger] changed[i]).vaa_hash@ != (#[trigger] changed[j]).vaa_hash@ by {
        assert(records[i].vaa_hash@ != records[j].vaa_hash@);
    }
    let target = auctions_map(records).insert(record.vaa_hash@, record@);
    assert forall|digest: Seq<u8>| #[trigger]
        auctions_map(changed).contains_key(digest) == target.contains_key(digest) by {
        if has_auction(changed, digest) {
            let i = choose|i: int|
                0 <= i < changed.len() && (#[trigger] changed[i]).vaa_hash@ == digest;
            assert(records[i].vaa_hash@ == digest);
        }
        if has_auction(records, digest) {
            let i = choose|i: int|
                0 <= i < records.len() && (#[trigger] records[i]).vaa_hash@ == digest;
            assert(changed[i].vaa_hash@ == digest);
        }
        if digest == record.vaa_hash@ {
            assert(changed[at].vaa_hash@ == digest);
        }
    }
    assert forall|digest: Seq<u8>| #[trigger] target.contains_key(digest) implies auctions_map(
        changed,
    )[digest] == target[digest] by {
        assert(auctions_map(changed).contains_key(digest));
        assert(has_auction(changed, digest));
        let i = choose|i: int|
            0 <= i < changed.len() && (#[trigger] changed[i]).vaa_hash@ == digest;
        lemma_auctions_map_at(changed, i);
        if i != at {
            assert(records[i].vaa_hash@ == digest);
            lemma_auctions_map_at(records, i);
        }
    }
    assert(auctions_map(changed) =~= target);
}

/// The store of settlement records.
#[derive(Debug)]
pub struct Ledger {
    fills: Vec<PreparedFill>,
    auctions: Vec<AuctionData>,
}

impl Ledger {
    /// The stored fills, by digest.
    pub closed spec fn fills(&self) -> Map<Seq<u8>, PreparedFillView> {
        fills_map(self.fills@)
    }

    /// The stored auctions, by digest.
    pub closed spec fn auctions(&self) -> Map<Seq<u8>, AuctionDataView> {
        auctions_map(self.auctions@)
    }

    /// The store's invariant: at most one record of each family per digest,
    /// every stored fill written, every stored auction started.
    pub closed spec fn wf(&self) -> bool {
        &&& distinct_fills(self.fills@)
        &&& distinct_auctions(self.auctions@)
        &&& forall|i: int| 0 <= i < self.fills@.len() ==> (#[trigger] self.fills@[i])@.is_set()
        &&& forall|i: int|
            0 <= i < self.auctions@.len() ==> (#[trigger] self.auctions@[i]).status
                != AuctionStatus::NotStarted
    }

    /// What the invariant means for the maps: both are consistent.
    pub proof fn lemma_consistent(&self)
        requires
            self.wf(),
        ensures
            consistent_fills(self.fills()),
            consistent_auctions(self.auctions()),
    {
        assert forall|digest: Seq<u8>| #[trigger]
            self.fills().contains_key(digest) implies self.fills()[digest].is_set()
            && self.fills()[digest].vaa_hash == digest by {
            let i = choose|i: int|
                0 <= i < self.fills@.len() && (#[trigger] self.fills@[i]).vaa_hash@ == digest;
            lemma_fills_map_at(self.fills@, i);
        }
        assert forall|digest: Seq<u8>| #[trigger]
            self.auctions().contains_key(digest) implies self.auctions()[digest].status
            != AuctionStatus::NotStarted && self.auctions()[digest].vaa_hash == digest by {
            let i = choose|i: int|
                0 <= i < self.auctions@.len() && (#[trigger] self.auctions@[i]).vaa_hash@
                    == digest;
            lemma_auctions_map_at(self.auctions@, i);
        }
    }

    /// An empty store.
    pub fn new() -> (ledger: Ledger)
        ensures
            ledger.wf(),
            ledger.fills() == Map::<Seq<u8>, PreparedFillView>::empty(),
            ledger.auctions() == Map::<Seq<u8>, AuctionDataView>::empty(),
    {
        let ledger = Ledger { fills: Vec::new(), auctions: Vec::new() };
        assert(ledger.fills() =~= Map::<Seq<u8>, PreparedFillView>::empty());
        assert(ledger.auctions() =~= Map::<Seq<u8>, AuctionDataView>::empty());
        ledger
    }

    /// Where the fill of `digest` is stored.
    fn find_fill(&self, digest: &[u8; 32]) -> (at: Option<usize>)
        ensures
            match at {
                Some(i) => i < self.fills@.len() && self.fills@[i as int].vaa_hash@ == digest@,
                None => !has_fill(self.fills@, digest@),
            },
    {
        let mut i: usize = 0;
        while i < self.fills.len()
            invariant
                i <= self.fills@.len(),
                forall|j: int| 0 <= j < i ==> (#[trigger] self.fills@[j]).vaa_hash@ != digest@,
            decreases self.fills@.len() - i,
        {
            if bytes32_eq(&self.fills[i].vaa_hash, digest) {
                return Some(i);
            }
            i += 1;
        }
        None
    }

    /// Where the auction of `digest` is stored.
    fn find_auction(&self, digest: &[u8; 32]) -> (at: Option<usize>)
        ensures
            match at {
                Some(i) => i < self.auctions@.len() && self.auctions@[i as int].vaa_hash@
                    == digest@,
                None => !has_auction(self.auctions@, digest@),
            },
    {
        let mut i: usize = 0;
        while i < self.auctions.len()
            invariant
                i <= self.auctions@.len(),
                forall|j: int| 0 <= j < i ==> (#[trigger] self.auctions@[j]).vaa_hash@ != digest@,
            decreases self.auctions@.len() - i,
        {
            if bytes32_eq(&self.auctions[i].vaa_hash, digest) {
                return Some(i);
            }
            i += 1;
        }
        None
    }

    /// The record that the store hands out for `digest`: the stored one, or
    /// an empty one.
    fn load_fill(&self, digest: &[u8; 32]) -> (record: PreparedFill)
        requires
            self.wf(),
        ensures
            record@ == record_of(self.fills(), digest@),
            record@.is_set() == self.fills().contains_key(digest@),
            !record@.is_set() ==> !has_fill(self.fills@, digest@),
    {
        match self.find_fill(digest) {
            Some(i) => {
                proof {
                    lemma_fills_map_at(self.fills@, i as int);
                }
                self.fills[i]
            },
            None => PreparedFill::unset(),
        }
    }

    /// The stored fill of `digest`, if the transfer has been redeemed.
    pub fn prepared_fill(&self, digest: &[u8; 32]) -> (record: Option<PreparedFill>)
        requires
            self.wf(),
        ensures
            match record {
                Some(r) => self.fills().contains_key(digest@) && self.fills()[digest@] == r@,
                None => !self.fills().contains_key(digest@),
            },
    {
        match self.find_fill(digest) {
            Some(i) => {
                proof {
                    lemma_fills_map_at(self.fills@, i as int);
                }
                Some(self.fills[i])
            },
            None => None,
        }
    }

    /// The stored auction of `digest`, if one has started.
    pub fn auction(&self, digest: &[u8; 32]) -> (record: Option<AuctionData>)
        requires
            self.wf(),
        ensures
            match record {
                Some(r) => self.auctions().contains_key(digest@) && self.auctions()[digest@]
                    == r@,
                None => !self.auctions().contains_key(digest@),
            },
    {
        match self.find_auction(digest) {
            Some(i) => {
                proof {
                    lemma_auctions_map_at(self.auctions@, i as int);
                }
                Some(self.auctions[i])
            },
            None => None,
        }
    }

    /// The status of the auction of `digest`; `NotStarted` where none is
    /// stored.
    pub fn auction_status(&self, digest: &[u8; 32]) -> (status: AuctionStatus)
        requires
            self.wf(),
        ensures
            status == status_of(self.auctions(), digest@),
    {
        match self.auction(digest) {
            Some(record) => record.status,
            None => AuctionStatus::NotStarted,
        }
    }

    /// Decides the next step of a redemption of the transfer that `vaa`
    /// announces. The store is only read.
    pub fn redeem_step(
        &self,
        vaa: VaaMessage,
        router_endpoint: RouterEndpoint,
        args: CctpMessageArgs,
    ) -> (step: Result<RedeemStep, TokenRouterError>)
        requires
            self.wf(),
        ensures
            view_ok(step) == spec_redeem_step(
                record_of(self.fills(), vaa@.digest),
                vaa@,
                router_endpoint@,
                args.encoded_cctp_message@,
                args.cctp_attestation@,
            ),
    {
        let prepared_fill = self.load_fill(&vaa.digest);
        let ctx = RedeemCctpFill {
            payer: [0u8; 32],
            vaa,
            prepared_fill,
            prepared_fill_bump: 0,
            router_endpoint,
        };
        redeem_cctp_fill(&ctx, args)
    }

    /// Redeems, over `path`, the transfer that `vaa` announces.
    ///
    /// The first redemption of a transfer stores its fill; every later one,
    /// over whichever path and with whatever message of the same digest,
    /// changes nothing and reports the stored fill.
    pub fn redeem(
        &mut self,
        path: DeliveryPath,
        payer: [u8; 32],
        vaa: VaaMessage,
        router_endpoint: RouterEndpoint,
        bump: u8,
    ) -> (redemption: Result<Redemption, TokenRouterError>)
        requires
            old(self).wf(),
        ensures
            final(self).wf(),
            (final(self).fills(), view_ok(redemption)) == spec_redeem(
                old(self).fills(),
                path,
                vaa@,
                router_endpoint@,
                payer@,
                bump,
            ),
            final(self).auctions() == old(self).auctions(),
    {
        let prepared_fill = self.load_fill(&vaa.digest);
        let newly_prepared = !prepared_fill.is_set();
        let mut ctx = RedeemCctpFill {
            payer,
            vaa,
            prepared_fill,
            prepared_fill_bump: bump,
            router_endpoint,
        };
        match handle_redeem_fill(&mut ctx, path) {
            Err(error) => Err(error),
            Ok(()) => {
                let record = ctx.prepared_fill;
                if newly_prepared {
                    proof {
                        lemma_fills_map_push(self.fills@, record);
                    }
                    self.fills.push(record);
                }
                Ok(Redemption { fill: record.fill(), fill_type: record.fill_type, newly_prepared })
            },
        }
    }

    /// Decides the next step of a settlement without auction of the transfer
    /// that `vaa` announces. The store is only read.
    pub fn finalize_step(
        &self,
        vaa: VaaMessage,
        router_endpoint: RouterEndpoint,
        args: CctpMessageArgs,
    ) -> (step: Result<RedeemStep, MatchingEngineError>)
        requires
            self.wf(),
        ensures
            view_ok(step) == spec_finalize_step(
                self.fills(),
                self.auctions(),
                vaa@,
                router_endpoint@,
                args.encoded_cctp_message@,
                args.cctp_attestation@,
            ),
    {
        if self.auction(&vaa.digest).is_some() {
            return Err(MatchingEngineError::AuctionExists);
        }
        let prepared_fill = self.load_fill(&vaa.digest);
        let auction_data = AuctionData::new(vaa.digest, 0);
        let ctx = ExecuteSlowOrderNoAuction {
            redeem: RedeemCctpFill {
                payer: [0u8; 32],
                vaa,
                prepared_fill,
                prepared_fill_bump: 0,
                router_endpoint,
            },
            auction_data,
        };
        prepare_execute_slow_order(&ctx, args)
    }

    /// Settles, over the guaranteed path, the transfer that `vaa` announces
    /// and for which no auction exists: redeems it and stores its auction as
    /// completed, both or neither.
    ///
    /// Where an auction record is stored for the transfer, the settlement is
    /// refused with [`MatchingEngineError::AuctionExists`].
    pub fn finalize_without_auction(
        &mut self,
        payer: [u8; 32],
        vaa: VaaMessage,
        router_endpoint: RouterEndpoint,
        fill_bump: u8,
        auction_bump: u8,
    ) -> (redemption: Result<Redemption, MatchingEngineError>)
        requires
            old(self).wf(),
        ensures
            final(self).wf(),
            (final(self).fills(), final(self).auctions(), view_ok(redemption)) == spec_finalize(
                old(self).fills(),
                old(self).auctions(),
                vaa@,
                router_endpoint@,
                payer@,
                fill_bump,
                auction_bump,
            ),
    {
        if self.find_auction(&vaa.digest).is_some() {
            return Err(MatchingEngineError::AuctionExists);
        }
        let prepared_fill = self.load_fill(&vaa.digest);
        let newly_prepared = !prepared_fill.is_set();
        let auction_data = AuctionData::new(vaa.digest, auction_bump);
        let mut ctx = ExecuteSlowOrderNoAuction {
            redeem: RedeemCctpFill {
                payer,
                vaa,
                prepared_fill,
                prepared_fill_bump: fill_bump,
                router_endpoint,
            },
            auction_data,
        };
        match execute_slow_order_no_auction(&mut ctx) {
            Err(error) => Err(error),
            Ok(()) => {
                let record = ctx.redeem.prepared_fill;
                if newly_prepared {
                    proof {
                        lemma_fills_map_push(self.fills@, record);
                    }
                    self.fills.push(record);
                }
                proof {
                    lemma_auctions_map_push(self.auctions@, ctx.auction_data);
                }
                self.auctions.push(ctx.auction_data);
                Ok(Redemption { fill: record.fill(), fill_type: record.fill_type, newly_prepared })
            },
        }
    }

    /// Opens the auction of `digest`: allocates its record as active. Where a
    /// record is stored already, whether active or completed, the opening is
    /// refused with [`MatchingEngineError::AuctionExists`].
    pub fn start_auction(&mut self, digest: [u8; 32], bump: u8) -> (done: Result<
        (),
        MatchingEngineError,
    >)
        requires
            old(self).wf(),
        ensures
            final(self).wf(),
            (final(self).auctions(), done) == spec_start_auction(
                old(self).auctions(),
                digest@,
                bump,
            ),
            final(self).fills() == old(self).fills(),
    {
        if self.find_auction(&digest).is_some() {
            return Err(MatchingEngineError::AuctionExists);
        }
        let mut record = AuctionData::new(digest, bump);
        record.advance(AuctionStatus::Active);
        proof {
            lemma_auctions_map_push(self.auctions@, record);
        }
        self.auctions.push(record);
        Ok(())
    }

    /// Completes the auction of `digest`. Where the auction is not active,
    /// the completion is refused with
    /// [`MatchingEngineError::AuctionNotActive`].
    pub fn complete_auction(&mut self, digest: &[u8; 32]) -> (done: Result<
        (),
        MatchingEngineError,
    >)
        requires
            old(self).wf(),
        ensures
            final(self).wf(),
            (final(self).auctions(), done) == spec_complete_auction(
                old(self).auctions(),
                digest@,
            ),
            final(self).fills() == old(self).fills(),
    {
        let at: usize = match self.find_auction(digest) {
            Some(at) => at,
            None => {
                return Err(MatchingEngineError::AuctionNotActive);
            },
        };
        proof {
            lemma_auctions_map_at(self.auctions@, at as int);
        }
        let mut record = self.auctions[at];
        if !record.advance(AuctionStatus::Completed) {
            return Err(MatchingEngineError::AuctionNotActive);
        }
        proof {
            lemma_auctions_map_update(self.auctions@, at as int, record);
        }
        self.auctions.set(at, record);
        Ok(())
    }
}

} // verus!
