//! The transfer-deposit envelope that a bridge-attested message carries.
//!
//! Layout of the envelope, integers big-endian:
//!
//! | offset | length | field                    |
//! |-------:|-------:|--------------------------|
//! |      0 |      1 | kind, `1` for a deposit  |
//! |      1 |     32 | token address            |
//! |     33 |     32 | amount                   |
//! |     65 |      4 | source domain            |
//! |     69 |      4 | destination domain       |
//! |     73 |      8 | nonce                    |
//! |     81 |     32 | burn source              |
//! |    113 |     32 | mint recipient           |
//! |    145 |      2 | length of the payload    |
//! |    147 |      … | payload                  |

use crate::bytes::be_value;
use vstd::prelude::*;
use wormhole_raw_vaas::cctp::WormholeCctpMessage;
use wormhole_raw_vaas::cctp::WormholeCctpPayload;
use wormhole_raw_vaas::Payload;

verus! {

/// Kind byte of a deposit envelope.
pub const DEPOSIT_KIND: u8 = 1;

/// Bytes of a deposit envelope that precede its payload.
pub const DEPOSIT_HEADER_LEN: usize = 147;

/// A deposit envelope, amount still in its wide on-wire form.
#[derive(Debug, Clone, PartialEq, Eq)]
pub struct CctpDeposit {
    /// Amount of the transfer: a 256-bit big-endian integer.
    pub amount: [u8; 32],
    /// Domain that the tokens were burnt on.
    pub source_domain: u32,
    /// Domain that the tokens are minted on.
    pub destination_domain: u32,
    /// Payload for the recipient of the deposit.
    pub payload: Vec<u8>,
}

/// Mathematical value of a [`CctpDeposit`].
pub struct CctpDepositView {
    pub amount: Seq<u8>,
    pub source_domain: u32,
    pub destination_domain: u32,
    pub payload: Seq<u8>,
}

impl View for CctpDeposit {
    type V = CctpDepositView;

    open spec fn view(&self) -> CctpDepositView {
        CctpDepositView {
            amount: self.amount@,
            source_domain: self.source_domain,
            destination_domain: self.destination_domain,
            payload: self.payload@,
        }
    }
}

/// Whether `span` is a well-formed deposit envelope: it has the deposit kind,
/// a whole header, and a payload of exactly the length the header states.
pub open spec fn is_deposit_envelope(span: Seq<u8>) -> bool {
    &&& span.len() >= DEPOSIT_HEADER_LEN
    &&& span[0] == DEPOSIT_KIND
    &&& be_value(span.subrange(145, 147)) == span.len() - DEPOSIT_HEADER_LEN
}

/// The deposit that `span` encodes, if it is a well-formed deposit envelope.
pub open spec fn spec_deposit_envelope(span: Seq<u8>) -> Option<CctpDepositView> {
    if is_deposit_envelope(span) {
        Some(
            CctpDepositView {
                amount: span.subrange(33, 65),
                source_domain: be_value(span.subrange(65, 69)) as u32,
                destination_domain: be_value(span.subrange(69, 73)) as u32,
                payload: span.subrange(DEPOSIT_HEADER_LEN as int, span.len() as int),
            },
        )
    } else {
        None
    }
}

/// Parses `span` as a transfer-deposit envelope.
///
/// Trusted: the body calls `WormholeCctpPayload::try_from` of
/// wormhole-raw-vaas on the span, and on a deposit its accessors `amount`,
/// `source_cctp_domain`, `destination_cctp_domain` and `payload`. The contract
/// claims that parsing yields a deposit exactly for the spans of
/// [`is_deposit_envelope`] (a reserved kind or a parse error gives `None`),
/// and that the accessors read the fields at the offsets of the layout above.
#[verifier::external_body]
pub(crate) fn parse_deposit_envelope(span: &[u8]) -> (deposit: Option<CctpDeposit>)
    ensures
        match deposit {
            Some(d) => spec_deposit_envelope(span@) == Some(d@),
            None => spec_deposit_envelope(span@) is None,
        },
{
    match WormholeCctpPayload::try_from(Payload::parse(span)) {
        Ok(parsed) => match parsed.message() {
            WormholeCctpMessage::Deposit(d) => Some(
                CctpDeposit {
                    amount: d.amount(),
                    source_domain: d.source_cctp_domain(),
                    destination_domain: d.destination_cctp_domain(),
                    payload: d.payload().as_ref().to_vec(),
                },
            ),
            WormholeCctpMessage::ReservedUnknown(_) => None,
        },
        Err(_) => None,
    }
}

} // verus!
