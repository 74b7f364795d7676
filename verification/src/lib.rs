//! An auction ledger core: deterministic state-transition rules and an
//! authenticated data layout for tracking ownership, bidding, and bid history
//! of uniquely identified items, meant to run as one module inside a
//! replicated-state-machine host.
//!
//! The host's consensus layer, its authenticated storage engine, and its
//! cryptographic primitives are external collaborators: transactions arrive
//! already ordered, carrying the digest of their signed payload, and the store
//! is modelled here as plain data with its commitments computed over it.
use vstd::prelude::*;

pub mod api;
pub mod commit;
pub mod schema;
pub mod state;
pub mod transactions;
pub mod types;

verus! {

/// The bid every item starts with when it is created.
pub const INITIAL_BID: u64 = 50;

/// Identifier of this service inside the host.
pub const SERVICE_ID: u16 = 12;

/// The auction service as the host sees it: its identity and the state
/// commitment it publishes. The host-facing plumbing (wiring endpoints,
/// decoding raw messages) belongs to the host adapter, not to this core.
pub struct Service;

impl Service {
    pub fn service_id(&self) -> (r: u16)
        ensures
            r == SERVICE_ID,
    {
        SERVICE_ID
    }

    pub fn service_name(&self) -> (r: &'static str)
        ensures
            r@ == "auction"@,
    {
        "auction"
    }

    /// The commitments this service contributes to the host's state hash:
    /// the root commitment of the item map alone.
    pub fn state_hash(&self, schema: &schema::Schema) -> (r: Vec<types::Digest>)
        requires
            schema.wf(),
        ensures
            r@ == seq![schema.commitment()],
    {
        schema.state_hash()
    }
}

/// Hands the host a fresh service instance.
pub struct ServiceFactory;

impl ServiceFactory {
    pub fn service_name(&self) -> (r: &'static str)
        ensures
            r@ == "auction"@,
    {
        "auction"
    }

    pub fn make_service(&mut self) -> (r: Service) {
        Service
    }
}

} // verus!
