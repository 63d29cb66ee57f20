//! Narrowing of the 256-bit token amount carried on the wire to the 64-bit
//! amounts this engine settles.

use crate::bytes::be_value;
use vstd::prelude::*;

verus! {

/// Narrows a 256-bit big-endian amount to `u64`.
///
/// Trusted: the body calls `ruint::aliases::U256::from_be_bytes` and then
/// ruint's `TryFrom<U256> for u64`. The contract claims that the first reads
/// the 32 bytes as one big-endian integer and that the second succeeds
/// exactly when that integer is at most `u64::MAX`, returning it unchanged.
#[verifier::external_body]
pub(crate) fn u256_be_to_u64(bytes: &[u8; 32]) -> (narrow: Option<u64>)
    ensures
        match narrow {
            Some(v) => v as nat == be_value(bytes@),
            None => be_value(bytes@) > u64::MAX as nat,
        },
{
    u64::try_from(ruint::aliases::U256::from_be_bytes(*bytes)).ok()
}

/// Range-checks a wide on-wire amount: `Some` with the amount when it fits
/// the 64-bit amounts of this engine, `None` when it exceeds them.
pub fn narrow_amount(wide: &[u8; 32]) -> (narrow: Option<u64>)
    ensures
        narrow == spec_narrow_amount(wide@),
{
    u256_be_to_u64(wide)
}

/// The amount that the 32 big-endian bytes `wide` spell, if it fits `u64`.
pub open spec fn spec_narrow_amount(wide: Seq<u8>) -> Option<u64> {
    if be_value(wide) <= u64::MAX as nat {
        Some(be_value(wide) as u64)
    } else {
        None
    }
}

} // verus!
