//! What holds of every run of the store, stated on its mathematical model
//! and proved.
//!
//! The model is the pair of maps that [`Ledger::fills`] and
//! [`Ledger::auctions`] give, and the operations are the spec functions that
//! the contracts of [`Ledger`]'s methods are written in. By
//! [`Ledger::lemma_consistent`] every well-formed store has consistent maps,
//! which is all that the laws ask of a store.
//!
//! [`Ledger`]: crate::ledger::Ledger
//! [`Ledger::fills`]: crate::ledger::Ledger::fills
//! [`Ledger::auctions`]: crate::ledger::Ledger::auctions
//! [`Ledger::lemma_consistent`]: crate::ledger::Ledger::lemma_consistent

use crate::amount::spec_narrow_amount;
use crate::bytes::be_value;
use crate::cctp::spec_deposit_envelope;
use crate::error::MatchingEngineError;
use crate::error::TokenRouterError;
use crate::ledger::consistent_auctions;
use crate::ledger::consistent_fills;
use crate::ledger::record_of;
use crate::ledger::spec_complete_auction;
use crate::ledger::spec_finalize;
use crate::ledger::spec_finalize_step;
use crate::ledger::spec_redeem;
use crate::ledger::spec_start_auction;
use crate::ledger::status_of;
use crate::ledger::RedemptionView;
use crate::redeem_fill::spec_redeem_step;
use crate::redeem_fill::DeliveryPath;
use crate::redeem_fill::RedeemStepView;
use crate::state::AuctionDataView;
use crate::state::AuctionStatus;
use crate::state::PreparedFillView;
use crate::state::RouterEndpointView;
use crate::vaa::VaaMessageView;
use vstd::prelude::*;

verus! {

/// One redemption attempt: the path it comes over and all that it presents.
pub struct Attempt {
    pub path: DeliveryPath,
    pub vaa: VaaMessageView,
    pub endpoint: RouterEndpointView,
    pub payer: Seq<u8>,
    pub bump: u8,
}

/// The attempt `attempt` made on a store of `fills`.
pub open spec fn spec_attempt(fills: Map<Seq<u8>, PreparedFillView>, attempt: Attempt) -> (
    Map<Seq<u8>, PreparedFillView>,
    Result<RedemptionView, TokenRouterError>,
) {
    spec_redeem(
        fills,
        attempt.path,
        attempt.vaa,
        attempt.endpoint,
        attempt.payer,
        attempt.bump,
    )
}

/// The store that `attempts`, made one after the other on a store of
/// `fills`, leave behind.
pub open spec fn fills_after(
    fills: Map<Seq<u8>, PreparedFillView>,
    attempts: Seq<Attempt>,
) -> Map<Seq<u8>, PreparedFillView>
    decreases attempts.len(),
{
    if attempts.len() == 0 {
        fills
    } else {
        spec_attempt(fills_after(fills, attempts.drop_last()), attempts.last()).0
    }
}

/// How the attempt at position `at` of `attempts` ends, when the attempts are
/// made one after the other on a store of `fills`.
pub open spec fn outcome_at(
    fills: Map<Seq<u8>, PreparedFillView>,
    attempts: Seq<Attempt>,
    at: int,
) -> Result<RedemptionView, TokenRouterError> {
    spec_attempt(fills_after(fills, attempts.take(at)), attempts[at]).1
}

/// The step that the attempt at position `at` of `attempts` is told to take
/// before it is made, when it offers `encoded_message` and `attestation` to
/// the protocol.
pub open spec fn step_at(
    fills: Map<Seq<u8>, PreparedFillView>,
    attempts: Seq<Attempt>,
    at: int,
    encoded_message: Seq<u8>,
    attestation: Seq<u8>,
) -> Result<RedeemStepView, TokenRouterError> {
    spec_redeem_step(
        record_of(fills_after(fills, attempts.take(at)), attempts[at].vaa.digest),
        attempts[at].vaa,
        attempts[at].endpoint,
        encoded_message,
        attestation,
    )
}

/// A redemption leaves a consistent store consistent.
pub proof fn law_redeem_keeps_consistency(
    fills: Map<Seq<u8>, PreparedFillView>,
    attempt: Attempt,
)
    requires
        consistent_fills(fills),
    ensures
        consistent_fills(spec_attempt(fills, attempt).0),
{
}

/// A stored fill is final: whatever redemption is attempted, over whichever
/// path and for whichever transfer, the fill stays stored as it is.
pub proof fn law_stored_fill_is_final(
    fills: Map<Seq<u8>, PreparedFillView>,
    digest: Seq<u8>,
    attempt: Attempt,
)
    requires
        consistent_fills(fills),
        fills.contains_key(digest),
    ensures
        spec_attempt(fills, attempt).0.contains_key(digest),
        spec_attempt(fills, attempt).0[digest] == fills[digest],
{
}

/// Any number of attempts leave a consistent store consistent, and leave
/// every fill that was stored before them as it was.
pub proof fn law_run_keeps_stored_fills(
    fills: Map<Seq<u8>, PreparedFillView>,
    attempts: Seq<Attempt>,
)
    requires
        consistent_fills(fills),
    ensures
        consistent_fills(fills_after(fills, attempts)),
        forall|digest: Seq<u8>| #[trigger]
            fills.contains_key(digest) ==> fills_after(fills, attempts).contains_key(digest)
                && fills_after(fills, attempts)[digest] == fills[digest],
    decreases attempts.len(),
{
    if attempts.len() > 0 {
        law_run_keeps_stored_fills(fills, attempts.drop_last());
        let before = fills_after(fills, attempts.drop_last());
        law_redeem_keeps_consistency(before, attempts.last());
        assert forall|digest: Seq<u8>| #[trigger] fills.contains_key(digest) implies fills_after(
            fills,
            attempts,
        ).contains_key(digest) && fills_after(fills, attempts)[digest] == fills[digest] by {
            law_stored_fill_is_final(before, digest, attempts.last());
        }
    }
}

/// The store that the first `upto` attempts leave holds, for `upto` beyond
/// `at`, what the attempt at `at` left under `digest`.
proof fn lemma_fill_survives(
    fills: Map<Seq<u8>, PreparedFillView>,
    attempts: Seq<Attempt>,
    digest: Seq<u8>,
    at: int,
    upto: int,
)
    requires
        consistent_fills(fills),
        0 <= at < upto <= attempts.len(),
        fills_after(fills, attempts.take(at + 1)).contains_key(digest),
    ensures
        consistent_fills(fills_after(fills, attempts.take(upto))),
        fills_after(fills, attempts.take(upto)).contains_key(digest),
        fills_after(fills, attempts.take(upto))[digest] == fills_after(
            fills,
            attempts.take(at + 1),
        )[digest],
    decreases upto - at,
{
    if upto == at + 1 {
        law_run_keeps_stored_fills(fills, attempts.take(upto));
    } else {
        lemma_fill_survives(fills, attempts, digest, at, upto - 1);
        assert(attempts.take(upto).drop_last() =~= attempts.take(upto - 1));
        assert(attempts.take(upto).last() == attempts[upto - 1]);
        let before = fills_after(fills, attempts.take(upto - 1));
        law_redeem_keeps_consistency(before, attempts[upto - 1]);
        law_stored_fill_is_final(before, digest, attempts[upto - 1]);
    }
}

/// Exactly-once payout. In any run of redemption attempts on a consistent
/// store, over whichever paths and with whatever messages, once an attempt
/// for a transfer has succeeded, every later attempt for the same transfer
/// succeeds too, reports the same fill under the same mark, has written
/// nothing, and was told beforehand to take no step: so the fill that all
/// observers see is one, at most one attempt records it, and at most one
/// mint is asked for.
pub proof fn law_exactly_once(
    fills: Map<Seq<u8>, PreparedFillView>,
    attempts: Seq<Attempt>,
    first: int,
    later: int,
    encoded_message: Seq<u8>,
    attestation: Seq<u8>,
)
    requires
        consistent_fills(fills),
        0 <= first < later < attempts.len(),
        attempts[first].vaa.digest == attempts[later].vaa.digest,
        outcome_at(fills, attempts, first) is Ok,
    ensures
        outcome_at(fills, attempts, later) is Ok,
        outcome_at(fills, attempts, later)->Ok_0.fill == outcome_at(
            fills,
            attempts,
            first,
        )->Ok_0.fill,
        outcome_at(fills, attempts, later)->Ok_0.fill_type == outcome_at(
            fills,
            attempts,
            first,
        )->Ok_0.fill_type,
        !outcome_at(fills, attempts, later)->Ok_0.newly_prepared,
        fills_after(fills, attempts.take(later + 1)) == fills_after(fills, attempts.take(later)),
        step_at(fills, attempts, later, encoded_message, attestation) == Ok::<
            RedeemStepView,
            TokenRouterError,
        >(RedeemStepView::Noop),
{
    let digest = attempts[first].vaa.digest;
    let before = fills_after(fills, attempts.take(first));
    law_run_keeps_stored_fills(fills, attempts.take(first));
    assert(attempts.take(first + 1).drop_last() =~= attempts.take(first));
    assert(attempts.take(first + 1).last() == attempts[first]);
    let after = fills_after(fills, attempts.take(first + 1));
    assert(after == spec_attempt(before, attempts[first]).0);
    assert(after.contains_key(digest));
    lemma_fill_survives(fills, attempts, digest, first, later);
    assert(attempts.take(later + 1).drop_last() =~= attempts.take(later));
    assert(attempts.take(later + 1).last() == attempts[later]);
}

/// Idempotent replay. On a consistent store that holds the fill of a
/// transfer, a redemption of that transfer succeeds, reports the stored fill
/// and leaves the store as it is; made again with the same inputs it does
/// the same; and before either, the step to take is none.
pub proof fn law_idempotent_replay(
    fills: Map<Seq<u8>, PreparedFillView>,
    attempt: Attempt,
    encoded_message: Seq<u8>,
    attestation: Seq<u8>,
)
    requires
        consistent_fills(fills),
        fills.contains_key(attempt.vaa.digest),
    ensures
        spec_attempt(fills, attempt).0 == fills,
        spec_attempt(fills, attempt).1 == Ok::<RedemptionView, TokenRouterError>(
            RedemptionView {
                fill: fills[attempt.vaa.digest].fill(),
                fill_type: fills[attempt.vaa.digest].fill_type,
                newly_prepared: false,
            },
        ),
        spec_attempt(spec_attempt(fills, attempt).0, attempt) == spec_attempt(fills, attempt),
        spec_redeem_step(
            record_of(fills, attempt.vaa.digest),
            attempt.vaa,
            attempt.endpoint,
            encoded_message,
            attestation,
        ) == Ok::<RedeemStepView, TokenRouterError>(RedeemStepView::Noop),
{
}

/// The step foretells the redemption. On any store, a redemption is told to
/// take no step exactly when it will succeed without writing, is told to
/// have the protocol verify and mint exactly when it will succeed and write
/// the record, and is refused beforehand exactly when it will be refused,
/// with the same error.
pub proof fn law_step_foretells_redemption(
    fills: Map<Seq<u8>, PreparedFillView>,
    attempt: Attempt,
    encoded_message: Seq<u8>,
    attestation: Seq<u8>,
)
    ensures
        ({
            let step = spec_redeem_step(
                record_of(fills, attempt.vaa.digest),
                attempt.vaa,
                attempt.endpoint,
                encoded_message,
                attestation,
            );
            let outcome = spec_attempt(fills, attempt).1;
            match step {
                Ok(RedeemStepView::Noop) => outcome is Ok && !outcome->Ok_0.newly_prepared,
                Ok(RedeemStepView::VerifyAndMint { encoded_message: m, attestation: a }) => {
                    &&& outcome is Ok
                    &&& outcome->Ok_0.newly_prepared
                    &&& m == encoded_message
                    &&& a == attestation
                },
                Err(error) => outcome == Err::<RedemptionView, TokenRouterError>(error),
            }
        }),
{
}

/// Cross-path mutual exclusion. Once the guaranteed path has settled a
/// transfer for which no auction existed, the transfer's auction stands as
/// completed; an attempt over the fast path for the same transfer, with
/// whatever message, is told to take no step, writes nothing and reports the
/// fill that the settlement recorded; and no auction can be opened, completed
/// or settled again for the transfer.
pub proof fn law_cross_path_exclusion(
    fills: Map<Seq<u8>, PreparedFillView>,
    auctions: Map<Seq<u8>, AuctionDataView>,
    vaa: VaaMessageView,
    endpoint: RouterEndpointView,
    payer: Seq<u8>,
    fill_bump: u8,
    auction_bump: u8,
    fast: Attempt,
    encoded_message: Seq<u8>,
    attestation: Seq<u8>,
)
    requires
        consistent_fills(fills),
        consistent_auctions(auctions),
        spec_finalize(fills, auctions, vaa, endpoint, payer, fill_bump, auction_bump).2 is Ok,
        fast.path == DeliveryPath::Fast,
        fast.vaa.digest == vaa.digest,
    ensures
        ({
            let (settled_fills, settled_auctions, settled) = spec_finalize(
                fills,
                auctions,
                vaa,
                endpoint,
                payer,
                fill_bump,
                auction_bump,
            );
            &&& !auctions.contains_key(vaa.digest)
            &&& consistent_fills(settled_fills)
            &&& consistent_auctions(settled_auctions)
            &&& status_of(settled_auctions, vaa.digest) == AuctionStatus::Completed
            &&& spec_redeem_step(
                record_of(settled_fills, vaa.digest),
                fast.vaa,
                fast.endpoint,
                encoded_message,
                attestation,
            ) == Ok::<RedeemStepView, TokenRouterError>(RedeemStepView::Noop)
            &&& spec_attempt(settled_fills, fast).0 == settled_fills
            &&& spec_attempt(settled_fills, fast).1 == Ok::<RedemptionView, TokenRouterError>(
                RedemptionView { newly_prepared: false, ..settled->Ok_0 },
            )
            &&& spec_start_auction(settled_auctions, vaa.digest, auction_bump) == (
                settled_auctions,
                Err::<(), MatchingEngineError>(MatchingEngineError::AuctionExists),
            )
            &&& spec_complete_auction(settled_auctions, vaa.digest) == (
                settled_auctions,
                Err::<(), MatchingEngineError>(MatchingEngineError::AuctionNotActive),
            )
            &&& spec_finalize(
                settled_fills,
                settled_auctions,
                fast.vaa,
                fast.endpoint,
                fast.payer,
                fast.bump,
                auction_bump,
            ) == (
                settled_fills,
                settled_auctions,
                Err::<RedemptionView, MatchingEngineError>(MatchingEngineError::AuctionExists),
            )
            &&& spec_finalize_step(
                settled_fills,
                settled_auctions,
                fast.vaa,
                fast.endpoint,
                encoded_message,
                attestation,
            ) == Err::<RedeemStepView, MatchingEngineError>(MatchingEngineError::AuctionExists)
        }),
{
}

/// An auction only moves forward. Opening, completing and settling without
/// auction leave consistent auctions consistent, and lower the status of no
/// transfer's auction: what is completed stays completed.
pub proof fn law_auction_status_is_monotonic(
    fills: Map<Seq<u8>, PreparedFillView>,
    auctions: Map<Seq<u8>, AuctionDataView>,
    digest: Seq<u8>,
    bump: u8,
    vaa: VaaMessageView,
    endpoint: RouterEndpointView,
    payer: Seq<u8>,
    fill_bump: u8,
    watched: Seq<u8>,
)
    requires
        consistent_auctions(auctions),
    ensures
        consistent_auctions(spec_start_auction(auctions, digest, bump).0),
        consistent_auctions(spec_complete_auction(auctions, digest).0),
        consistent_auctions(
            spec_finalize(fills, auctions, vaa, endpoint, payer, fill_bump, bump).1,
        ),
        status_of(auctions, watched).rank() <= status_of(
            spec_start_auction(auctions, digest, bump).0,
            watched,
        ).rank(),
        status_of(auctions, watched).rank() <= status_of(
            spec_complete_auction(auctions, digest).0,
            watched,
        ).rank(),
        status_of(auctions, watched).rank() <= status_of(
            spec_finalize(fills, auctions, vaa, endpoint, payer, fill_bump, bump).1,
            watched,
        ).rank(),
{
}

/// Emitter validation. A message whose emitter is not the router registered
/// for its chain, announcing a transfer that is not redeemed yet, is refused
/// with `InvalidSourceRouter`: before any mint is asked for, by the
/// redemption, and by the settlement without auction, and the store stays as
/// it is.
pub proof fn law_unregistered_emitter_is_refused(
    fills: Map<Seq<u8>, PreparedFillView>,
    auctions: Map<Seq<u8>, AuctionDataView>,
    attempt: Attempt,
    auction_bump: u8,
    encoded_message: Seq<u8>,
    attestation: Seq<u8>,
)
    requires
        !fills.contains_key(attempt.vaa.digest),
        !attempt.endpoint.is_emitter(attempt.vaa.emitter_chain, attempt.vaa.emitter_address),
    ensures
        spec_redeem_step(
            record_of(fills, attempt.vaa.digest),
            attempt.vaa,
            attempt.endpoint,
            encoded_message,
            attestation,
        ) == Err::<RedeemStepView, TokenRouterError>(TokenRouterError::InvalidSourceRouter),
        spec_attempt(fills, attempt) == (
            fills,
            Err::<RedemptionView, TokenRouterError>(TokenRouterError::InvalidSourceRouter),
        ),
        !auctions.contains_key(attempt.vaa.digest) ==> spec_finalize(
            fills,
            auctions,
            attempt.vaa,
            attempt.endpoint,
            attempt.payer,
            attempt.bump,
            auction_bump,
        ) == (
            fills,
            auctions,
            Err::<RedemptionView, MatchingEngineError>(
                MatchingEngineError::Redemption(TokenRouterError::InvalidSourceRouter),
            ),
        ),
{
}

/// Amount range check. A message from the registered router whose deposit
/// states an amount beyond 64 bits, announcing a transfer that is not
/// redeemed yet, is refused with `AmountOverflow`: before any mint is asked
/// for, by the redemption, and by the settlement without auction, and the
/// store stays as it is.
pub proof fn law_wide_amount_is_refused(
    fills: Map<Seq<u8>, PreparedFillView>,
    auctions: Map<Seq<u8>, AuctionDataView>,
    attempt: Attempt,
    auction_bump: u8,
    encoded_message: Seq<u8>,
    attestation: Seq<u8>,
)
    requires
        !fills.contains_key(attempt.vaa.digest),
        attempt.endpoint.is_emitter(attempt.vaa.emitter_chain, attempt.vaa.emitter_address),
        spec_deposit_envelope(attempt.vaa.payload) is Some,
        be_value(spec_deposit_envelope(attempt.vaa.payload)->Some_0.amount) > u64::MAX,
    ensures
        spec_narrow_amount(spec_deposit_envelope(attempt.vaa.payload)->Some_0.amount) is None,
        spec_redeem_step(
            record_of(fills, attempt.vaa.digest),
            attempt.vaa,
            attempt.endpoint,
            encoded_message,
            attestation,
        ) == Err::<RedeemStepView, TokenRouterError>(TokenRouterError::AmountOverflow),
        spec_attempt(fills, attempt) == (
            fills,
            Err::<RedemptionView, TokenRouterError>(TokenRouterError::AmountOverflow),
        ),
        !auctions.contains_key(attempt.vaa.digest) ==> spec_finalize(
            fills,
            auctions,
            attempt.vaa,
            attempt.endpoint,
            attempt.payer,
            attempt.bump,
            auction_bump,
        ) == (
            fills,
            auctions,
            Err::<RedemptionView, MatchingEngineError>(
                MatchingEngineError::Redemption(TokenRouterError::AmountOverflow),
            ),
        ),
{
}

} // verus!
