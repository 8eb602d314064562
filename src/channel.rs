//! The unbounded queues that link the facade, the forwarders and the relay.
use tokio::sync::mpsc::{UnboundedReceiver, UnboundedSender};
use vstd::prelude::*;

verus! {

#[verifier::external_type_specification]
#[verifier::external_body]
#[verifier::reject_recursive_types(T)]
pub struct ExUnboundedSender<T>(UnboundedSender<T>);

#[verifier::external_type_specification]
#[verifier::external_body]
#[verifier::reject_recursive_types(T)]
pub struct ExUnboundedReceiver<T>(UnboundedReceiver<T>);

/// Relies on the Clone impl of tokio::sync::mpsc::UnboundedSender: another
/// sending end of the same queue.
pub assume_specification<T>[ <UnboundedSender<T> as Clone>::clone ](
    sender: &UnboundedSender<T>,
) -> UnboundedSender<T>;

/// Relies on tokio::sync::mpsc::unbounded_channel: a new queue, returned as
/// its sending and its receiving end.
#[verifier::external_body]
pub(crate) fn new_queue<T>() -> (UnboundedSender<T>, UnboundedReceiver<T>) {
    tokio::sync::mpsc::unbounded_channel()
}

/// Relies on tokio::sync::mpsc::UnboundedSender::send: it never blocks, and
/// when the receiving end is closed the error hands the value back.
#[verifier::external_body]
pub(crate) fn offer<T>(queue: &UnboundedSender<T>, value: T) -> (r: Result<(), T>)
    ensures
        r is Err ==> r->Err_0 == value,
{
    queue.send(value).map_err(|e| e.0)
}

} // verus!
