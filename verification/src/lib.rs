//! Settlement core for cross-chain transfers that may arrive over two racing
//! delivery paths: a fast one, paid out of an auction, and a slow one, backed
//! by an attestation that always arrives in the end.
//!
//! A transfer is identified by the digest of its attested message. Whichever
//! path delivers first records the transfer's fill; every later delivery for
//! the same digest is a no-op that reports the recorded fill.
//!
//! - [`bytes`], [`amount`], [`cctp`], [`messages`]: the wire formats.
//! - [`deposit`]: from an attested message to the fill it announces.
//! - [`state`]: the records kept per transfer.
//! - [`redeem_fill`], [`execute_slow_order`]: what a redemption and a
//!   settlement without auction do to the records they are handed.
//! - [`ledger`]: the store of records, keyed by digest.
//! - [`laws`]: what holds of every run of the store.
//!
//! The library calls no attestation protocol and moves no funds. Where a mint
//! is due, a function says so in its result, and the caller sees to it.

pub mod amount;
pub mod bytes;
pub mod cctp;
pub mod deposit;
pub mod error;
pub mod execute_slow_order;
pub mod laws;
pub mod ledger;
pub mod messages;
pub mod redeem_fill;
pub mod state;
pub mod vaa;
