//! The cancellation signal of a run: a watched boolean with one writer and any
//! number of observers.

use tokio::sync::watch::{channel, Receiver, Sender};
use vstd::prelude::*;

verus! {

/// `tokio::sync::watch::Sender`, the writer of a signal: an opaque value
/// that is carried through.
#[verifier::external_type_specification]
#[verifier::external_body]
#[verifier::reject_recursive_types(T)]
pub struct ExSender<T>(Sender<T>);

/// `tokio::sync::watch::Receiver`, an observer of a signal: an opaque value
/// that is carried through.
#[verifier::external_type_specification]
#[verifier::external_body]
#[verifier::reject_recursive_types(T)]
pub struct ExReceiver<T>(Receiver<T>);

/// Calls `tokio::sync::watch::channel`: a fresh signal that holds
/// `initial`, as its writer and one observer. Nothing is claimed of the
/// pair.
#[verifier::external_body]
pub(crate) fn open_signal(initial: bool) -> (pair: (Sender<bool>, Receiver<bool>)) {
    channel(initial)
}

/// Calls `tokio::sync::watch::Sender::send` with `value` and reports
/// whether the value was accepted; tokio refuses it once every observer is
/// gone. What the observers then see is not claimed.
#[verifier::external_body]
pub(crate) fn send_signal(writer: &Sender<bool>, value: bool) -> (accepted: bool) {
    writer.send(value).is_ok()
}

/// Reads the value an observer currently sees, through
/// `tokio::sync::watch::Receiver::borrow`. Another thread may have changed
/// it, so nothing is claimed of the result.
#[verifier::external_body]
pub(crate) fn read_signal(observer: &Receiver<bool>) -> (raised: bool) {
    *observer.borrow()
}

} // verus!
