use crate::channel::send_item;
use std::sync::mpsc::Sender;
use vstd::prelude::*;

verus! {

/// What became of one item that a relay's producer was asked for.
#[derive(Debug)]
pub enum RelayStep<E> {
    /// The item was passed on to the queue; the relay goes on.
    Forwarded,
    /// The producer has no more items; the relay stops.
    Exhausted,
    /// The producer failed; the relay stops without passing anything on.
    Failed(E),
    /// The queue's receiving side is gone; the relay stops.
    ReceiverGone,
}

impl<E> RelayStep<E> {
    /// Whether the relay asks its producer for another item.
    pub open spec fn goes_on(self) -> bool {
        self is Forwarded
    }

    /// Whether the relay asks its producer for another item.
    pub fn should_continue(&self) -> (r: bool)
        ensures
            r == self.goes_on(),
    {
        match self {
            RelayStep::Forwarded => true,
            _ => false,
        }
    }
}

/// What a relay does with what its producer gave: an item is to be passed
/// on as it is; the end of the producer or a failure is the step that stops
/// the relay.
pub fn to_forward<T, E>(produced: Option<Result<T, E>>) -> (r: Result<T, RelayStep<E>>)
    ensures
        match produced {
            None => r matches Err(RelayStep::Exhausted),
            Some(Err(e)) => r == Err::<T, RelayStep<E>>(RelayStep::Failed(e)),
            Some(Ok(x)) => r == Ok::<T, RelayStep<E>>(x),
        },
{
    match produced {
        None => Err(RelayStep::Exhausted),
        Some(Err(e)) => Err(RelayStep::Failed(e)),
        Some(Ok(x)) => Ok(x),
    }
}

/// What a relay does once it has tried to pass an item on: it goes on when
/// the queue took the item, and stops when the receiving side is gone.
pub fn step_after_send<E>(delivered: bool) -> (r: RelayStep<E>)
    ensures
        delivered ==> r is Forwarded,
        !delivered ==> r is ReceiverGone,
{
    if delivered {
        RelayStep::Forwarded
    } else {
        RelayStep::ReceiverGone
    }
}

/// One round of a relay: what the producer gave, `produced`, is passed on to
/// `sink` when it is an item; the end of the producer or a failure stops the
/// relay, and a failure is handed back for the caller to report. What
/// is sent is the item that `to_forward` picks out, and what follows the send
/// is decided by `step_after_send` on its outcome.
pub fn relay_one<T, E>(produced: Option<Result<T, E>>, sink: &Sender<T>) -> (r: RelayStep<E>)
    ensures
        match produced {
            None => r is Exhausted,
            Some(Err(e)) => r == RelayStep::<E>::Failed(e),
            Some(Ok(_)) => r is Forwarded || r is ReceiverGone,
        },
{
    match to_forward(produced) {
        Ok(item) => step_after_send(send_item(sink, item)),
        Err(stop) => stop,
    }
}

} // verus!
