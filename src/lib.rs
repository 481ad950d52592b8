//! An in-process concurrency core: a message mediator that routes typed
//! envelopes between registered identities, and the decision logic of a
//! supervisor that joins a batch of concurrently running routines.

pub mod channel;
pub mod envelope;
pub mod error;
pub mod mediator;
pub mod supervisor;
