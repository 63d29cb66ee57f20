//! What this engine reads of a bridge-attested message.

use vstd::prelude::*;

verus! {

/// The fields of a bridge-attested message that settlement reads. The bridge
/// authenticates the message; the values are taken as given here.
#[derive(Debug, Clone, PartialEq, Eq)]
pub struct VaaMessage {
    /// Chain that emitted the message.
    pub emitter_chain: u16,
    /// Address of the emitter on that chain.
    pub emitter_address: [u8; 32],
    /// Digest of the message: the identity of the transfer it announces.
    pub digest: [u8; 32],
    /// The message's payload.
    pub payload: Vec<u8>,
}

/// Mathematical value of a [`VaaMessage`].
pub struct VaaMessageView {
    pub emitter_chain: u16,
    pub emitter_address: Seq<u8>,
    pub digest: Seq<u8>,
    pub payload: Seq<u8>,
}

impl View for VaaMessage {
    type V = VaaMessageView;

    open spec fn view(&self) -> VaaMessageView {
        VaaMessageView {
            emitter_chain: self.emitter_chain,
            emitter_address: self.emitter_address@,
            digest: self.digest@,
            payload: self.payload@,
        }
    }
}

} // verus!
