//! The emitter registered for a chain.

use crate::bytes::bytes32_eq;
use vstd::prelude::*;

verus! {

/// The router registered as the emitter of one chain. Messages from that
/// chain are accepted from this address only.
#[derive(Debug, Clone, Copy, PartialEq, Eq)]
pub struct RouterEndpoint {
    pub bump: u8,
    /// Chain that the router lives on.
    pub chain: u16,
    /// Address of the router on that chain.
    pub address: [u8; 32],
}

/// Mathematical value of a [`RouterEndpoint`].
pub struct RouterEndpointView {
    pub bump: u8,
    pub chain: u16,
    pub address: Seq<u8>,
}

impl View for RouterEndpoint {
    type V = RouterEndpointView;

    open spec fn view(&self) -> RouterEndpointView {
        RouterEndpointView { bump: self.bump, chain: self.chain, address: self.address@ }
    }
}

impl RouterEndpointView {
    /// Whether a message from `chain` and `address` comes from this router.
    pub open spec fn is_emitter(self, chain: u16, address: Seq<u8>) -> bool {
        self.chain == chain && self.address == address
    }
}

impl RouterEndpoint {
    /// Whether a message from `chain` and `address` comes from this router.
    pub fn is_emitter(&self, chain: u16, address: &[u8; 32]) -> (registered: bool)
        ensures
            registered == self@.is_emitter(chain, address@),
    {
        self.chain == chain && bytes32_eq(&self.address, address)
    }
}

} // verus!
