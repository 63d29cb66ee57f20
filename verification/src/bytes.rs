//! Reading fixed-width fields out of a byte span.
//!
//! All multi-byte integers on the wire are big-endian. The contracts speak of
//! a span through its view, a `Seq<u8>`, and of an integer field through
//! [`be_value`] of the bytes that spell it.

use vstd::prelude::*;
use vstd::slice::slice_subrange;
use vstd::slice::slice_to_vec;

verus! {

/// The number that `bytes` spells when read as a big-endian integer.
pub open spec fn be_value(bytes: Seq<u8>) -> nat
    decreases bytes.len(),
{
    if bytes.len() == 0 {
        0
    } else {
        be_value(bytes.drop_last()) * 256 + bytes.last() as nat
    }
}

/// A single byte spells itself.
pub proof fn lemma_be_value_1(bytes: Seq<u8>)
    requires
        bytes.len() == 1,
    ensures
        be_value(bytes) == bytes[0] as nat,
{
    assert(bytes.drop_last().len() == 0);
    assert(be_value(bytes.drop_last()) == 0);
}

/// Two bytes spell `hi * 256 + lo`.
pub proof fn lemma_be_value_2(bytes: Seq<u8>)
    requires
        bytes.len() == 2,
    ensures
        be_value(bytes) == bytes[0] as nat * 256 + bytes[1] as nat,
{
    lemma_be_value_1(bytes.drop_last());
}

/// Four bytes spell the usual 32-bit big-endian number.
pub proof fn lemma_be_value_4(bytes: Seq<u8>)
    requires
        bytes.len() == 4,
    ensures
        be_value(bytes) == bytes[0] as nat * 16777216 + bytes[1] as nat * 65536 + bytes[2] as nat
            * 256 + bytes[3] as nat,
{
    let three = bytes.drop_last();
    let two = three.drop_last();
    lemma_be_value_2(two);
    assert(be_value(three) == be_value(two) * 256 + three.last() as nat);
    assert(be_value(bytes) == be_value(three) * 256 + bytes.last() as nat);
}

/// Reads the big-endian `u16` that starts at `at`.
pub fn read_u16_be(span: &[u8], at: usize) -> (value: u16)
    requires
        at + 2 <= span@.len(),
    ensures
        value as nat == be_value(span@.subrange(at as int, at + 2)),
{
    let hi: u16 = span[at] as u16;
    let lo: u16 = span[at + 1] as u16;
    proof {
        lemma_be_value_2(span@.subrange(at as int, at + 2));
    }
    hi * 256 + lo
}

/// Reads the big-endian `u32` that starts at `at`.
pub fn read_u32_be(span: &[u8], at: usize) -> (value: u32)
    requires
        at + 4 <= span@.len(),
    ensures
        value as nat == be_value(span@.subrange(at as int, at + 4)),
{
    let b0: u32 = span[at] as u32;
    let b1: u32 = span[at + 1] as u32;
    let b2: u32 = span[at + 2] as u32;
    let b3: u32 = span[at + 3] as u32;
    proof {
        lemma_be_value_4(span@.subrange(at as int, at + 4));
    }
    b0 * 16777216 + b1 * 65536 + b2 * 256 + b3
}

/// Copies the `N` bytes that start at `at`.
pub fn read_array<const N: usize>(span: &[u8], at: usize) -> (out: [u8; N])
    requires
        at + N <= span@.len(),
    ensures
        out@ == span@.subrange(at as int, at + N),
{
    let len: usize = span.len();
    let mut out: [u8; N] = [0u8; N];
    let mut i: usize = 0;
    while i < N
        invariant
            i <= N,
            at + N <= len,
            len == span@.len(),
            forall|j: int| 0 <= j < i ==> out@[j] == span@[at + j],
        decreases N - i,
    {
        out[i] = span[at + i];
        i += 1;
    }
    assert(out@ =~= span@.subrange(at as int, at + N));
    out
}

/// Copies the bytes of `span` from `from` up to, not including, `to`.
pub fn read_bytes(span: &[u8], from: usize, to: usize) -> (out: Vec<u8>)
    requires
        from <= to <= span@.len(),
    ensures
        out@ == span@.subrange(from as int, to as int),
{
    slice_to_vec(slice_subrange(span, from, to))
}

/// Whether two 32-byte values hold the same bytes.
pub fn bytes32_eq(a: &[u8; 32], b: &[u8; 32]) -> (same: bool)
    ensures
        same == (a@ == b@),
{
    let mut i: usize = 0;
    while i < 32
        invariant
            i <= 32,
            forall|j: int| 0 <= j < i ==> a@[j] == b@[j],
        decreases 32 - i,
    {
        if a[i] != b[i] {
            return false;
        }
        i += 1;
    }
    assert(a@ =~= b@);
    true
}

} // verus!
