use vstd::prelude::*;

verus! {

/// Relies on tokio's `task::JoinError`: carried as an opaque value that tells
/// why a spawned task ended abnormally.
#[verifier::external_type_specification]
#[verifier::external_body]
pub struct ExJoinError(tokio::task::JoinError);

/// The error type of a routine that cannot fail: its one variant holds an
/// `Infallible`, so no value of it can be built.
pub enum NoErr {
    Never(std::convert::Infallible),
}

/// Why a message could not be routed, or why a forwarding task stopped.
#[derive(Debug)]
pub enum MediatorError<E> {
    /// The destination's receiving side was already dropped.
    ChannelClosed { from: E, to: E },
    /// No registry entry matches `target`, or the inbound channel of
    /// `target`'s own forwarder was closed.
    TargetUnreachable { target: E },
    /// A forwarding task ended abnormally instead of with its own result.
    JoinHandleError(tokio::task::JoinError),
}

} // verus!
