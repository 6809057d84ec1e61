//! What this crate takes on trust of tokio's broadcast channel.
//!
//! The channel is shared: a `Sender` is written through a shared reference,
//! by any number of publishers at once, and receivers come and go with the
//! clients. Nothing is therefore stated here of what the channel holds, and
//! of a result only what holds whoever else is using the channel.

use tokio::sync::broadcast::error::{RecvError, SendError};
use tokio::sync::broadcast::{Receiver, Sender};
use vstd::prelude::*;

verus! {

/// `tokio::sync::broadcast::Sender`, the sending end of a channel. Opaque.
#[verifier::external_type_specification]
#[verifier::external_body]
#[verifier::reject_recursive_types(T)]
pub struct ExSender<T>(Sender<T>);

/// `tokio::sync::broadcast::Receiver`, one reader's end of a channel. Opaque.
#[verifier::external_type_specification]
#[verifier::external_body]
#[verifier::reject_recursive_types(T)]
pub struct ExReceiver<T>(Receiver<T>);

/// `tokio::sync::broadcast::error::SendError`, the error of `Sender::send`.
/// Opaque.
#[verifier::external_type_specification]
#[verifier::external_body]
#[verifier::reject_recursive_types(T)]
pub struct ExSendError<T>(SendError<T>);

/// `tokio::sync::broadcast::error::RecvError`, the error of
/// `Receiver::recv`, with its two variants as tokio declares them: `Closed`,
/// and `Lagged` with the number of values that were skipped.
#[verifier::external_type_specification]
pub struct ExRecvError(RecvError);

/// `tokio::sync::broadcast::channel` makes a channel and its first receiver.
/// It panics on a capacity of zero or above `usize::MAX / 2`, which the
/// precondition leaves out. Nothing is claimed of what it returns.
pub assume_specification<T: Clone>[ tokio::sync::broadcast::channel::<T> ](capacity: usize) -> (ends: (
    Sender<T>,
    Receiver<T>,
))
    requires
        0 < capacity <= usize::MAX / 2,
;

/// Calls `Sender::send`, which hands a value to the receivers that exist at
/// that moment and returns their number, or returns the value as an error
/// when there is none. The one claim: a number that it returns is not zero.
#[verifier::external_body]
pub(crate) fn offer<T>(tx: &Sender<T>, value: T) -> (outcome: Result<usize, SendError<T>>)
    ensures
        outcome matches Ok(receivers) ==> receivers >= 1,
{
    tx.send(value)
}

/// Calls `Sender::subscribe`, which makes a receiver for the values sent
/// from then on. Nothing is claimed of it. (It panics when `usize::MAX / 4`
/// receivers exist already, more than an address space has room for.)
#[verifier::external_body]
pub(crate) fn attach<T>(tx: &Sender<T>) -> (rx: Receiver<T>) {
    tx.subscribe()
}

} // verus!
