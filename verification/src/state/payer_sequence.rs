//! A payer's running sequence number.

use vstd::prelude::*;

verus! {

/// Counter of the messages that one payer has had sent.
#[derive(Debug, Clone, Copy, PartialEq, Eq, Structural)]
pub struct PayerSequence {
    pub value: u64,
}

impl PayerSequence {
    /// Hands out the current sequence number and moves the counter on by one.
    pub fn take_and_uptick(&mut self) -> (seq: u64)
        requires
            old(self).value < u64::MAX,
        ensures
            seq == old(self).value,
            final(self).value == old(self).value + 1,
    {
        let seq: u64 = self.value;

        self.value += 1;

        seq
    }

    /// Like [`take_and_uptick`](Self::take_and_uptick), for a counter that may
    /// be exhausted: at `u64::MAX` nothing is handed out and the counter stays.
    pub fn checked_take_and_uptick(&mut self) -> (seq: Option<u64>)
        ensures
            old(self).value < u64::MAX ==> seq == Some(old(self).value) && final(self).value
                == old(self).value + 1,
            old(self).value == u64::MAX ==> seq is None && *final(self) == *old(self),
    {
        if self.value < u64::MAX {
            Some(self.take_and_uptick())
        } else {
            None
        }
    }
}

impl std::ops::Deref for PayerSequence {
    type Target = u64;

    fn deref(&self) -> (value: &u64)
        ensures
            *value == self.value,
    {
        &self.value
    }
}

} // verus!
