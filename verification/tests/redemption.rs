use liquidity_layer::error::{MatchingEngineError, TokenRouterError};
use liquidity_layer::execute_slow_order::{
    execute_slow_order_no_auction, prepare_execute_slow_order, ExecuteSlowOrderNoAuction,
};
use liquidity_layer::redeem_fill::{
    handle_redeem_fill, handle_redeem_fill_cctp, redeem_cctp_fill, CctpMessageArgs, DeliveryPath,
    ReceiveMessageArgs, RedeemCctpFill, RedeemStep,
};
use liquidity_layer::state::{
    AuctionData, AuctionStatus, Fill, FillType, PayerSequence, PreparedFill, RouterEndpoint,
};
use liquidity_layer::vaa::VaaMessage;

const ROUTER: [u8; 32] = [0xaa; 32];
const SENDER: [u8; 32] = [0x11; 32];
const REDEEMER: [u8; 32] = [0x22; 32];
const PAYER: [u8; 32] = [0x99; 32];
const DIGEST: [u8; 32] = [0xd1; 32];

fn amount_bytes(value: u64) -> [u8; 32] {
    let mut out = [0u8; 32];
    out[24..].copy_from_slice(&value.to_be_bytes());
    out
}

fn fill_message(source_chain: u16, sender: [u8; 32], redeemer: [u8; 32], message: &[u8]) -> Vec<u8> {
    let mut out = vec![11u8];
    out.extend_from_slice(&source_chain.to_be_bytes());
    out.extend_from_slice(&sender);
    out.extend_from_slice(&redeemer);
    out.extend_from_slice(&(message.len() as u32).to_be_bytes());
    out.extend_from_slice(message);
    out
}

fn envelope(amount: [u8; 32], payload: &[u8]) -> Vec<u8> {
    let mut out = vec![1u8];
    out.extend_from_slice(&[0x33; 32]);
    out.extend_from_slice(&amount);
    out.extend_from_slice(&3u32.to_be_bytes());
    out.extend_from_slice(&5u32.to_be_bytes());
    out.extend_from_slice(&7u64.to_be_bytes());
    out.extend_from_slice(&[0x44; 32]);
    out.extend_from_slice(&[0x55; 32]);
    out.extend_from_slice(&(payload.len() as u16).to_be_bytes());
    out.extend_from_slice(payload);
    out
}

fn args() -> CctpMessageArgs {
    CctpMessageArgs { encoded_cctp_message: vec![1, 2, 3], cctp_attestation: vec![4, 5] }
}

fn valid_vaa() -> VaaMessage {
    VaaMessage {
        emitter_chain: 2,
        emitter_address: ROUTER,
        digest: DIGEST,
        payload: envelope(amount_bytes(1000), &fill_message(6, SENDER, REDEEMER, b"")),
    }
}

fn context(vaa: VaaMessage, prepared_fill: PreparedFill) -> RedeemCctpFill {
    RedeemCctpFill {
        payer: PAYER,
        vaa,
        prepared_fill,
        prepared_fill_bump: 253,
        router_endpoint: RouterEndpoint { bump: 254, chain: 2, address: ROUTER },
    }
}

fn written(fill_type: FillType) -> PreparedFill {
    PreparedFill {
        vaa_hash: DIGEST,
        bump: 253,
        redeemer: REDEEMER,
        prepared_by: PAYER,
        fill_type,
        source_chain: 6,
        order_sender: SENDER,
        amount: 1000,
    }
}

#[test]
fn an_allocated_record_is_all_zero() {
    let record = PreparedFill::unset();
    assert_eq!(
        record,
        PreparedFill {
            vaa_hash: [0; 32],
            bump: 0,
            redeemer: [0; 32],
            prepared_by: [0; 32],
            fill_type: FillType::Unset,
            source_chain: 0,
            order_sender: [0; 32],
            amount: 0,
        }
    );
    assert!(!record.is_set());
    assert!(written(FillType::WormholeCctpDeposit).is_set());
    assert!(written(FillType::FastFill).is_set());
    assert_eq!(
        written(FillType::FastFill).fill(),
        Fill { source_chain: 6, order_sender: SENDER, redeemer: REDEEMER, amount: 1000 }
    );
}

#[test]
fn each_path_has_its_mark() {
    assert_eq!(DeliveryPath::Guaranteed.fill_type(), FillType::WormholeCctpDeposit);
    assert_eq!(DeliveryPath::Fast.fill_type(), FillType::FastFill);
}

#[test]
fn a_new_transfer_asks_for_the_mint() {
    let ctx = context(valid_vaa(), PreparedFill::unset());
    assert_eq!(
        redeem_cctp_fill(&ctx, args()),
        Ok(RedeemStep::VerifyAndMint(ReceiveMessageArgs {
            encoded_message: vec![1, 2, 3],
            attestation: vec![4, 5],
        }))
    );
}

#[test]
fn a_redeemed_transfer_asks_for_nothing() {
    for mark in [FillType::WormholeCctpDeposit, FillType::FastFill] {
        let ctx = context(valid_vaa(), written(mark));
        assert_eq!(redeem_cctp_fill(&ctx, args()), Ok(RedeemStep::Noop));

        // Nothing is verified on a replay: a message that would be refused is not looked at.
        let mut broken = valid_vaa();
        broken.emitter_chain = 77;
        broken.payload = vec![0xde, 0xad];
        let ctx = context(broken, written(mark));
        assert_eq!(redeem_cctp_fill(&ctx, args()), Ok(RedeemStep::Noop));
    }
}

#[test]
fn a_refused_message_asks_for_no_mint() {
    let mut vaa = valid_vaa();
    vaa.emitter_address = [0xab; 32];
    let ctx = context(vaa, PreparedFill::unset());
    assert_eq!(redeem_cctp_fill(&ctx, args()), Err(TokenRouterError::InvalidSourceRouter));

    let mut vaa = valid_vaa();
    vaa.payload[0] = 2;
    let ctx = context(vaa, PreparedFill::unset());
    assert_eq!(redeem_cctp_fill(&ctx, args()), Err(TokenRouterError::InvalidEnvelope));

    let mut vaa = valid_vaa();
    vaa.payload = envelope([0xff; 32], &fill_message(6, SENDER, REDEEMER, b""));
    let ctx = context(vaa, PreparedFill::unset());
    assert_eq!(redeem_cctp_fill(&ctx, args()), Err(TokenRouterError::AmountOverflow));

    let mut vaa = valid_vaa();
    vaa.payload = envelope(amount_bytes(1000), &[11, 1, 2]);
    let ctx = context(vaa, PreparedFill::unset());
    assert_eq!(redeem_cctp_fill(&ctx, args()), Err(TokenRouterError::InvalidDepositMessage));

    let mut vaa = valid_vaa();
    vaa.payload = envelope(amount_bytes(1000), &[14; 17]);
    let ctx = context(vaa, PreparedFill::unset());
    assert_eq!(redeem_cctp_fill(&ctx, args()), Err(TokenRouterError::InvalidPayloadId));
}

#[test]
fn the_guaranteed_path_writes_the_record() {
    let mut ctx = context(valid_vaa(), PreparedFill::unset());
    assert_eq!(handle_redeem_fill_cctp(&mut ctx), Ok(()));
    assert_eq!(ctx.prepared_fill, written(FillType::WormholeCctpDeposit));
    assert_eq!(ctx.vaa, valid_vaa());
    assert_eq!(ctx.payer, PAYER);
}

#[test]
fn the_fast_path_writes_the_record_under_its_mark() {
    let mut ctx = context(valid_vaa(), PreparedFill::unset());
    assert_eq!(handle_redeem_fill(&mut ctx, DeliveryPath::Fast), Ok(()));
    assert_eq!(ctx.prepared_fill, written(FillType::FastFill));
}

#[test]
fn a_written_record_is_never_written_again() {
    // Another message of the same digest, with another redeemer and amount, over either path.
    let mut other = valid_vaa();
    other.payload = envelope(amount_bytes(5), &fill_message(9, [1; 32], [2; 32], b"x"));
    for mark in [FillType::WormholeCctpDeposit, FillType::FastFill] {
        for path in [DeliveryPath::Guaranteed, DeliveryPath::Fast] {
            let mut ctx = context(other.clone(), written(mark));
            let before = ctx.clone();
            assert_eq!(handle_redeem_fill(&mut ctx, path), Ok(()));
            assert_eq!(ctx, before);
        }
    }
}

#[test]
fn a_refused_message_writes_nothing() {
    let mut vaa = valid_vaa();
    vaa.emitter_chain = 4;
    let mut ctx = context(vaa, PreparedFill::unset());
    let before = ctx.clone();
    assert_eq!(handle_redeem_fill_cctp(&mut ctx), Err(TokenRouterError::InvalidSourceRouter));
    assert_eq!(ctx, before);

    let mut vaa = valid_vaa();
    vaa.payload = envelope([0xff; 32], &fill_message(6, SENDER, REDEEMER, b""));
    let mut ctx = context(vaa, PreparedFill::unset());
    let before = ctx.clone();
    assert_eq!(handle_redeem_fill_cctp(&mut ctx), Err(TokenRouterError::AmountOverflow));
    assert_eq!(ctx, before);
}

#[test]
fn a_slow_order_without_auction_completes_the_auction() {
    let mut ctx = ExecuteSlowOrderNoAuction {
        redeem: context(valid_vaa(), PreparedFill::unset()),
        auction_data: AuctionData::new(DIGEST, 250),
    };
    assert_eq!(ctx.auction_data.status, AuctionStatus::NotStarted);
    assert_eq!(
        prepare_execute_slow_order(&ctx, args()),
        Ok(RedeemStep::VerifyAndMint(ReceiveMessageArgs {
            encoded_message: vec![1, 2, 3],
            attestation: vec![4, 5],
        }))
    );
    assert_eq!(execute_slow_order_no_auction(&mut ctx), Ok(()));
    assert_eq!(
        ctx.auction_data,
        AuctionData { bump: 250, vaa_hash: DIGEST, status: AuctionStatus::Completed }
    );
    assert_eq!(ctx.redeem.prepared_fill, written(FillType::WormholeCctpDeposit));
}

#[test]
fn a_slow_order_after_a_fast_fill_keeps_the_fill() {
    let mut ctx = ExecuteSlowOrderNoAuction {
        redeem: context(valid_vaa(), written(FillType::FastFill)),
        auction_data: AuctionData::new(DIGEST, 250),
    };
    assert_eq!(prepare_execute_slow_order(&ctx, args()), Ok(RedeemStep::Noop));
    assert_eq!(execute_slow_order_no_auction(&mut ctx), Ok(()));
    assert_eq!(ctx.auction_data.status, AuctionStatus::Completed);
    assert_eq!(ctx.redeem.prepared_fill, written(FillType::FastFill));
}

#[test]
fn a_refused_slow_order_leaves_the_auction_unstarted() {
    let mut vaa = valid_vaa();
    vaa.payload = envelope(amount_bytes(1000), &[14; 17]);
    let mut ctx = ExecuteSlowOrderNoAuction {
        redeem: context(vaa, PreparedFill::unset()),
        auction_data: AuctionData::new(DIGEST, 250),
    };
    let before = ctx.clone();
    assert_eq!(
        prepare_execute_slow_order(&ctx, args()),
        Err(MatchingEngineError::Redemption(TokenRouterError::InvalidPayloadId))
    );
    assert_eq!(
        execute_slow_order_no_auction(&mut ctx),
        Err(MatchingEngineError::Redemption(TokenRouterError::InvalidPayloadId))
    );
    assert_eq!(ctx, before);
}

#[test]
fn an_auction_only_moves_forward() {
    let all = [AuctionStatus::NotStarted, AuctionStatus::Active, AuctionStatus::Completed];
    for from in all {
        for to in all {
            let allowed = matches!(
                (from, to),
                (AuctionStatus::NotStarted, AuctionStatus::Active)
                    | (AuctionStatus::NotStarted, AuctionStatus::Completed)
                    | (AuctionStatus::Active, AuctionStatus::Completed)
            );
            assert_eq!(from.can_become(to), allowed);

            let mut record = AuctionData { bump: 1, vaa_hash: DIGEST, status: from };
            assert_eq!(record.advance(to), allowed);
            let expected = if allowed { to } else { from };
            assert_eq!(record, AuctionData { bump: 1, vaa_hash: DIGEST, status: expected });
        }
    }
}

#[test]
fn a_payer_sequence_counts_up() {
    let mut sequence = PayerSequence { value: 41 };
    assert_eq!(sequence.take_and_uptick(), 41);
    assert_eq!(sequence.take_and_uptick(), 42);
    assert_eq!(sequence.value, 43);
    assert_eq!(*sequence, 43);
    assert_eq!(sequence.checked_take_and_uptick(), Some(43));
    assert_eq!(sequence.value, 44);

    let mut last = PayerSequence { value: u64::MAX - 1 };
    assert_eq!(last.checked_take_and_uptick(), Some(u64::MAX - 1));
    assert_eq!(last.checked_take_and_uptick(), None);
    assert_eq!(last.value, u64::MAX);
}
