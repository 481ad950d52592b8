//! The bounded channels of tokio that carry message points between the
//! connectors and the mediator.
use vstd::prelude::*;

verus! {

/// Relies on tokio's `mpsc::Sender`: the sending half of a bounded channel,
/// carried through as an opaque value.
#[verifier::external_type_specification]
#[verifier::external_body]
#[verifier::reject_recursive_types(T)]
pub struct ExSender<T>(tokio::sync::mpsc::Sender<T>);

/// Relies on tokio's `mpsc::Receiver`: the receiving half of a bounded
/// channel, carried through as an opaque value.
#[verifier::external_type_specification]
#[verifier::external_body]
#[verifier::reject_recursive_types(T)]
pub struct ExReceiver<T>(tokio::sync::mpsc::Receiver<T>);

/// Relies on tokio's `mpsc::error::TryRecvError`: tells an empty channel from
/// one whose senders are all gone.
#[verifier::external_type_specification]
#[verifier::external_body]
pub struct ExTryRecvError(tokio::sync::mpsc::error::TryRecvError);

/// Relies on tokio's `mpsc::channel`: creates a bounded channel of `buffer`
/// slots. It panics on a zero buffer and on one above its semaphore's
/// `MAX_PERMITS` (`usize::MAX >> 3`), which `requires` leaves out.
pub assume_specification<T>[ tokio::sync::mpsc::channel::<T> ](buffer: usize) -> (
    tokio::sync::mpsc::Sender<T>,
    tokio::sync::mpsc::Receiver<T>,
)
    requires
        0 < buffer <= usize::MAX >> 3,
;

/// Relies on tokio's `mpsc::Receiver::try_recv`: takes the next value if one
/// is queued, without waiting. What it returns depends on the channel's state,
/// so nothing is promised of it.
pub assume_specification<T>[ tokio::sync::mpsc::Receiver::<T>::try_recv ](
    rx: &mut tokio::sync::mpsc::Receiver<T>,
) -> Result<T, tokio::sync::mpsc::error::TryRecvError>;

} // verus!
