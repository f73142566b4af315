use crate::lookahead::Pulled;
use std::sync::mpsc::{Receiver, RecvTimeoutError, Sender};
use std::time::Duration;
use vstd::prelude::*;

verus! {

#[verifier::external_type_specification]
#[verifier::external_body]
#[verifier::reject_recursive_types(T)]
pub struct ExReceiver<T>(Receiver<T>);

#[verifier::external_type_specification]
#[verifier::external_body]
#[verifier::reject_recursive_types(T)]
pub struct ExSender<T>(Sender<T>);

/// Relies on `Receiver::recv`: blocks until a value arrives, which it returns,
/// or until every sender is gone and the queue is drained, when it fails.
/// Which of the two happens depends on the other side, so nothing is stated.
#[verifier::external_body]
pub(crate) fn receive<T>(source: &Receiver<T>) -> (r: Pulled<T>)
    ensures
        !(r is TimedOut),
{
    match source.recv() {
        Ok(item) => Pulled::Item(item),
        Err(_) => Pulled::Disconnected,
    }
}

/// Relies on `Receiver::recv_timeout`: waits at most `timeout` for a value,
/// and tells an elapsed wait apart from a queue whose senders are all gone.
/// Which outcome comes depends on the other side and on time.
#[verifier::external_body]
pub(crate) fn receive_within<T>(source: &Receiver<T>, timeout: Duration) -> (r: Pulled<T>) {
    match source.recv_timeout(timeout) {
        Ok(item) => Pulled::Item(item),
        Err(RecvTimeoutError::Timeout) => Pulled::TimedOut,
        Err(RecvTimeoutError::Disconnected) => Pulled::Disconnected,
    }
}

/// Relies on `Sender::send`: fails, giving the value back, only when the
/// receiving side is gone. Whether it is gone depends on the other side.
#[verifier::external_body]
pub(crate) fn send_item<T>(sink: &Sender<T>, item: T) -> (delivered: bool) {
    sink.send(item).is_ok()
}

} // verus!
