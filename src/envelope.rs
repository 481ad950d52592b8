use vstd::prelude::*;

use crate::error::MediatorError;

verus! {

/// A payload tagged with the identity that sent it.
#[derive(Debug)]
pub struct Message<E, M> {
    pub source: E,
    pub message: M,
}

/// An envelope tagged with the identity it is addressed to; the unit carried
/// through the mediator's channels.
#[derive(Debug)]
pub struct MessagePoint<E, M> {
    pub destination: E,
    pub payload: Message<E, M>,
}

impl<E, M> Message<E, M> {
    pub fn new(source: E, message: M) -> (r: Self)
        ensures
            r.source == source,
            r.message == message,
    {
        Message { source, message }
    }
}

/// The error for a point that came back undelivered: the channel it was sent
/// on had lost its receiving side.
pub open spec fn closed_error<E, M>(p: MessagePoint<E, M>) -> MediatorError<E> {
    MediatorError::ChannelClosed { from: p.payload.source, to: p.destination }
}

impl<E, M> MessagePoint<E, M> {
    /// Wraps `message` from `source` for delivery to `destination`.
    pub fn new(destination: E, source: E, message: M) -> (r: Self)
        ensures
            r.destination == destination,
            r.payload.source == source,
            r.payload.message == message,
    {
        MessagePoint { destination, payload: Message { source, message } }
    }

    /// Strips the destination tag, leaving the envelope that the addressee sees.
    pub fn into_message(self) -> (r: Message<E, M>)
        ensures
            r == self.payload,
    {
        self.payload
    }

    /// The error for a point that came back undelivered because the channel
    /// it was sent on had lost its receiving side.
    pub fn into_closed_error(self) -> (r: MediatorError<E>)
        ensures
            r == closed_error(self),
    {
        MediatorError::ChannelClosed { from: self.payload.source, to: self.destination }
    }
}

} // verus!
