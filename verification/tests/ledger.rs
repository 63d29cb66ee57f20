use liquidity_layer::error::{MatchingEngineError, TokenRouterError};
use liquidity_layer::ledger::{Ledger, Redemption};
use liquidity_layer::redeem_fill::{CctpMessageArgs, DeliveryPath, ReceiveMessageArgs, RedeemStep};
use liquidity_layer::state::{
    AuctionData, AuctionStatus, Fill, FillType, PreparedFill, RouterEndpoint,
};
use liquidity_layer::vaa::VaaMessage;

const ROUTER: [u8; 32] = [0xaa; 32];
const SENDER: [u8; 32] = [0x11; 32];
const R: [u8; 32] = [0x22; 32];
const PAYER: [u8; 32] = [0x99; 32];
const D1: [u8; 32] = [0xd1; 32];
const D2: [u8; 32] = [0xd2; 32];

fn amount_bytes(value: u64) -> [u8; 32] {
    let mut out = [0u8; 32];
    out[24..].copy_from_slice(&value.to_be_bytes());
    out
}

fn fill_message(source_chain: u16, sender: [u8; 32], redeemer: [u8; 32], message: &[u8]) -> Vec<u8> {
    let mut out = vec![11u8];
    out.extend_from_slice(&source_chain.to_be_bytes());
    out.extend_from_slice(&sender);
    out.extend_from_slice(&redeemer);
    out.extend_from_slice(&(message.len() as u32).to_be_bytes());
    out.extend_from_slice(message);
    out
}

fn envelope(amount: [u8; 32], payload: &[u8]) -> Vec<u8> {
    let mut out = vec![1u8];
    out.extend_from_slice(&[0x33; 32]);
    out.extend_from_slice(&amount);
    out.extend_from_slice(&3u32.to_be_bytes());
    out.extend_from_slice(&5u32.to_be_bytes());
    out.extend_from_slice(&7u64.to_be_bytes());
    out.extend_from_slice(&[0x44; 32]);
    out.extend_from_slice(&[0x55; 32]);
    out.extend_from_slice(&(payload.len() as u16).to_be_bytes());
    out.extend_from_slice(payload);
    out
}

fn args() -> CctpMessageArgs {
    CctpMessageArgs { encoded_cctp_message: vec![1, 2, 3], cctp_attestation: vec![4, 5] }
}

fn mint() -> RedeemStep {
    RedeemStep::VerifyAndMint(ReceiveMessageArgs {
        encoded_message: vec![1, 2, 3],
        attestation: vec![4, 5],
    })
}

fn endpoint() -> RouterEndpoint {
    RouterEndpoint { bump: 254, chain: 2, address: ROUTER }
}

fn transfer(digest: [u8; 32], amount: u64, redeemer: [u8; 32]) -> VaaMessage {
    VaaMessage {
        emitter_chain: 2,
        emitter_address: ROUTER,
        digest,
        payload: envelope(amount_bytes(amount), &fill_message(6, SENDER, redeemer, b"")),
    }
}

fn fill(amount: u64, redeemer: [u8; 32]) -> Fill {
    Fill { source_chain: 6, order_sender: SENDER, redeemer, amount }
}

fn record(digest: [u8; 32], fill_type: FillType, amount: u64, redeemer: [u8; 32]) -> PreparedFill {
    PreparedFill {
        vaa_hash: digest,
        bump: 253,
        redeemer,
        prepared_by: PAYER,
        fill_type,
        source_chain: 6,
        order_sender: SENDER,
        amount,
    }
}

#[test]
fn a_new_store_is_empty() {
    let ledger = Ledger::new();
    assert_eq!(ledger.prepared_fill(&D1), None);
    assert_eq!(ledger.auction(&D1), None);
    assert_eq!(ledger.auction_status(&D1), AuctionStatus::NotStarted);
}

#[test]
fn guaranteed_path_settles_a_transfer_without_auction() {
    let mut ledger = Ledger::new();

    // D1 has no auction; the guaranteed path delivers amount 1000 for redeemer R.
    assert_eq!(ledger.finalize_step(transfer(D1, 1000, R), endpoint(), args()), Ok(mint()));
    let settled = ledger.finalize_without_auction(PAYER, transfer(D1, 1000, R), endpoint(), 253, 250);
    assert_eq!(
        settled,
        Ok(Redemption {
            fill: fill(1000, R),
            fill_type: FillType::WormholeCctpDeposit,
            newly_prepared: true,
        })
    );
    assert_eq!(
        ledger.prepared_fill(&D1),
        Some(record(D1, FillType::WormholeCctpDeposit, 1000, R))
    );
    assert_eq!(
        ledger.auction(&D1),
        Some(AuctionData { bump: 250, vaa_hash: D1, status: AuctionStatus::Completed })
    );
    assert_eq!(ledger.auction_status(&D1), AuctionStatus::Completed);

    // A later attempt over the fast path: no step to take, the same fill, nothing written.
    assert_eq!(ledger.redeem_step(transfer(D1, 1000, R), endpoint(), args()), Ok(RedeemStep::Noop));
    let replay = ledger.redeem(DeliveryPath::Fast, [0x77; 32], transfer(D1, 1000, R), endpoint(), 1);
    assert_eq!(
        replay,
        Ok(Redemption {
            fill: fill(1000, R),
            fill_type: FillType::WormholeCctpDeposit,
            newly_prepared: false,
        })
    );
    assert_eq!(
        ledger.prepared_fill(&D1),
        Some(record(D1, FillType::WormholeCctpDeposit, 1000, R))
    );
    assert_eq!(ledger.auction_status(&D1), AuctionStatus::Completed);

    // Nor can an auction be opened, completed or settled for D1 any more.
    assert_eq!(ledger.start_auction(D1, 9), Err(MatchingEngineError::AuctionExists));
    assert_eq!(ledger.complete_auction(&D1), Err(MatchingEngineError::AuctionNotActive));
    assert_eq!(
        ledger.finalize_step(transfer(D1, 1000, R), endpoint(), args()),
        Err(MatchingEngineError::AuctionExists)
    );
    assert_eq!(
        ledger.finalize_without_auction(PAYER, transfer(D1, 1000, R), endpoint(), 253, 250),
        Err(MatchingEngineError::AuctionExists)
    );
    assert_eq!(
        ledger.auction(&D1),
        Some(AuctionData { bump: 250, vaa_hash: D1, status: AuctionStatus::Completed })
    );
}

#[test]
fn two_racing_attempts_create_one_record() {
    let mut ledger = Ledger::new();

    // Both attempts look before either has written: both are told to go on.
    assert_eq!(ledger.redeem_step(transfer(D2, 640, R), endpoint(), args()), Ok(mint()));
    assert_eq!(ledger.redeem_step(transfer(D2, 640, R), endpoint(), args()), Ok(mint()));

    let first = ledger.redeem(DeliveryPath::Guaranteed, PAYER, transfer(D2, 640, R), endpoint(), 253);
    let second =
        ledger.redeem(DeliveryPath::Guaranteed, [0x98; 32], transfer(D2, 640, R), endpoint(), 252);
    assert_eq!(
        first,
        Ok(Redemption {
            fill: fill(640, R),
            fill_type: FillType::WormholeCctpDeposit,
            newly_prepared: true,
        })
    );
    assert_eq!(
        second,
        Ok(Redemption {
            fill: fill(640, R),
            fill_type: FillType::WormholeCctpDeposit,
            newly_prepared: false,
        })
    );
    // The record is the first attempt's.
    assert_eq!(
        ledger.prepared_fill(&D2),
        Some(record(D2, FillType::WormholeCctpDeposit, 640, R))
    );
    assert_eq!(ledger.prepared_fill(&D1), None);
}

#[test]
fn every_observer_sees_the_first_fill() {
    let mut ledger = Ledger::new();
    let first = ledger.redeem(DeliveryPath::Fast, PAYER, transfer(D1, 1000, R), endpoint(), 253);
    assert_eq!(
        first,
        Ok(Redemption { fill: fill(1000, R), fill_type: FillType::FastFill, newly_prepared: true })
    );

    // Later attempts for D1, over either path, even with another amount and redeemer or with a
    // message that would be refused, all report what the first recorded.
    let mut refused = transfer(D1, 1000, R);
    refused.emitter_chain = 9;
    let later = [
        (DeliveryPath::Guaranteed, transfer(D1, 1000, R)),
        (DeliveryPath::Fast, transfer(D1, 1000, R)),
        (DeliveryPath::Guaranteed, transfer(D1, 7, [0x23; 32])),
        (DeliveryPath::Fast, refused),
    ];
    let mut written = 1;
    for (path, vaa) in later {
        assert_eq!(ledger.redeem_step(vaa.clone(), endpoint(), args()), Ok(RedeemStep::Noop));
        let seen = ledger.redeem(path, PAYER, vaa, endpoint(), 253).unwrap();
        assert_eq!(seen.fill, fill(1000, R));
        assert_eq!(seen.fill_type, FillType::FastFill);
        if seen.newly_prepared {
            written += 1;
        }
    }
    assert_eq!(written, 1);
    assert_eq!(ledger.prepared_fill(&D1), Some(record(D1, FillType::FastFill, 1000, R)));
}

#[test]
fn a_replay_changes_nothing() {
    let mut ledger = Ledger::new();
    ledger.redeem(DeliveryPath::Guaranteed, PAYER, transfer(D1, 1000, R), endpoint(), 253).unwrap();
    let stored = ledger.prepared_fill(&D1);

    let once = ledger.redeem(DeliveryPath::Guaranteed, PAYER, transfer(D1, 1000, R), endpoint(), 253);
    assert_eq!(ledger.prepared_fill(&D1), stored);
    let twice = ledger.redeem(DeliveryPath::Guaranteed, PAYER, transfer(D1, 1000, R), endpoint(), 253);
    assert_eq!(ledger.prepared_fill(&D1), stored);
    assert_eq!(once, twice);
    assert_eq!(
        once,
        Ok(Redemption {
            fill: fill(1000, R),
            fill_type: FillType::WormholeCctpDeposit,
            newly_prepared: false,
        })
    );
}

#[test]
fn transfers_do_not_disturb_each_other() {
    let mut ledger = Ledger::new();
    ledger.redeem(DeliveryPath::Guaranteed, PAYER, transfer(D1, 1000, R), endpoint(), 253).unwrap();
    let other = ledger.redeem(DeliveryPath::Fast, PAYER, transfer(D2, 5, [0x24; 32]), endpoint(), 253);
    assert_eq!(
        other,
        Ok(Redemption {
            fill: fill(5, [0x24; 32]),
            fill_type: FillType::FastFill,
            newly_prepared: true,
        })
    );
    assert_eq!(
        ledger.prepared_fill(&D1),
        Some(record(D1, FillType::WormholeCctpDeposit, 1000, R))
    );
    assert_eq!(ledger.prepared_fill(&D2), Some(record(D2, FillType::FastFill, 5, [0x24; 32])));
}

#[test]
fn an_unregistered_emitter_changes_nothing() {
    let mut ledger = Ledger::new();
    let mut vaa = transfer(D1, 1000, R);
    vaa.emitter_address[31] ^= 0x80;

    assert_eq!(
        ledger.redeem_step(vaa.clone(), endpoint(), args()),
        Err(TokenRouterError::InvalidSourceRouter)
    );
    assert_eq!(
        ledger.redeem(DeliveryPath::Guaranteed, PAYER, vaa.clone(), endpoint(), 253),
        Err(TokenRouterError::InvalidSourceRouter)
    );
    assert_eq!(
        ledger.finalize_step(vaa.clone(), endpoint(), args()),
        Err(MatchingEngineError::Redemption(TokenRouterError::InvalidSourceRouter))
    );
    assert_eq!(
        ledger.finalize_without_auction(PAYER, vaa, endpoint(), 253, 250),
        Err(MatchingEngineError::Redemption(TokenRouterError::InvalidSourceRouter))
    );
    assert_eq!(ledger.prepared_fill(&D1), None);
    assert_eq!(ledger.auction(&D1), None);

    // The transfer can still be settled by a message from the registered router.
    assert!(ledger.finalize_without_auction(PAYER, transfer(D1, 1000, R), endpoint(), 253, 250).is_ok());
}

#[test]
fn too_wide_an_amount_changes_nothing() {
    let mut ledger = Ledger::new();
    let mut wide = [0u8; 32];
    wide[23] = 1;
    let mut vaa = transfer(D1, 0, R);
    vaa.payload = envelope(wide, &fill_message(6, SENDER, R, b""));

    assert_eq!(
        ledger.redeem_step(vaa.clone(), endpoint(), args()),
        Err(TokenRouterError::AmountOverflow)
    );
    assert_eq!(
        ledger.redeem(DeliveryPath::Fast, PAYER, vaa.clone(), endpoint(), 253),
        Err(TokenRouterError::AmountOverflow)
    );
    assert_eq!(
        ledger.finalize_without_auction(PAYER, vaa, endpoint(), 253, 250),
        Err(MatchingEngineError::Redemption(TokenRouterError::AmountOverflow))
    );
    assert_eq!(ledger.prepared_fill(&D1), None);
    assert_eq!(ledger.auction_status(&D1), AuctionStatus::NotStarted);
}

#[test]
fn the_other_refusals_change_nothing_either() {
    let mut ledger = Ledger::new();
    let mut vaa = transfer(D1, 1000, R);
    vaa.payload[0] = 3;
    assert_eq!(
        ledger.redeem(DeliveryPath::Guaranteed, PAYER, vaa, endpoint(), 253),
        Err(TokenRouterError::InvalidEnvelope)
    );
    let mut vaa = transfer(D1, 1000, R);
    vaa.payload = envelope(amount_bytes(1000), &[11]);
    assert_eq!(
        ledger.redeem(DeliveryPath::Guaranteed, PAYER, vaa, endpoint(), 253),
        Err(TokenRouterError::InvalidDepositMessage)
    );
    let mut vaa = transfer(D1, 1000, R);
    vaa.payload = envelope(amount_bytes(1000), &[14; 17]);
    assert_eq!(
        ledger.redeem(DeliveryPath::Guaranteed, PAYER, vaa, endpoint(), 253),
        Err(TokenRouterError::InvalidPayloadId)
    );
    assert_eq!(ledger.prepared_fill(&D1), None);
}

#[test]
fn an_auction_runs_from_active_to_completed() {
    let mut ledger = Ledger::new();
    assert_eq!(ledger.complete_auction(&D1), Err(MatchingEngineError::AuctionNotActive));
    assert_eq!(ledger.start_auction(D1, 9), Ok(()));
    assert_eq!(
        ledger.auction(&D1),
        Some(AuctionData { bump: 9, vaa_hash: D1, status: AuctionStatus::Active })
    );
    assert_eq!(ledger.start_auction(D1, 10), Err(MatchingEngineError::AuctionExists));
    assert_eq!(ledger.auction_status(&D2), AuctionStatus::NotStarted);

    assert_eq!(ledger.complete_auction(&D1), Ok(()));
    assert_eq!(
        ledger.auction(&D1),
        Some(AuctionData { bump: 9, vaa_hash: D1, status: AuctionStatus::Completed })
    );
    assert_eq!(ledger.complete_auction(&D1), Err(MatchingEngineError::AuctionNotActive));
    assert_eq!(ledger.auction_status(&D1), AuctionStatus::Completed);
}

#[test]
fn a_transfer_under_auction_is_not_settled_without_one() {
    let mut ledger = Ledger::new();
    ledger.start_auction(D1, 9).unwrap();
    assert_eq!(
        ledger.finalize_step(transfer(D1, 1000, R), endpoint(), args()),
        Err(MatchingEngineError::AuctionExists)
    );
    assert_eq!(
        ledger.finalize_without_auction(PAYER, transfer(D1, 1000, R), endpoint(), 253, 250),
        Err(MatchingEngineError::AuctionExists)
    );
    assert_eq!(ledger.prepared_fill(&D1), None);
    assert_eq!(ledger.auction_status(&D1), AuctionStatus::Active);

    // Another transfer is settled all the same.
    assert!(ledger.finalize_without_auction(PAYER, transfer(D2, 1, R), endpoint(), 253, 250).is_ok());
    assert_eq!(ledger.auction_status(&D2), AuctionStatus::Completed);
    assert_eq!(ledger.auction_status(&D1), AuctionStatus::Active);
}

#[test]
fn settling_after_a_fast_fill_keeps_the_fill() {
    let mut ledger = Ledger::new();
    ledger.redeem(DeliveryPath::Fast, PAYER, transfer(D1, 1000, R), endpoint(), 253).unwrap();
    assert_eq!(
        ledger.finalize_step(transfer(D1, 1000, R), endpoint(), args()),
        Ok(RedeemStep::Noop)
    );
    assert_eq!(
        ledger.finalize_without_auction(PAYER, transfer(D1, 1000, R), endpoint(), 253, 250),
        Ok(Redemption { fill: fill(1000, R), fill_type: FillType::FastFill, newly_prepared: false })
    );
    assert_eq!(ledger.auction_status(&D1), AuctionStatus::Completed);
    assert_eq!(ledger.prepared_fill(&D1), Some(record(D1, FillType::FastFill, 1000, R)));
}
