//! The one-shot delivery channel between a worker and its handle.

use std::sync::mpsc::{Receiver, Sender, TryRecvError};
use vstd::prelude::*;

verus! {

/// The receiving end of a channel of the standard library.
#[verifier::external_type_specification]
#[verifier::external_body]
#[verifier::reject_recursive_types(T)]
pub struct ExReceiver<T>(Receiver<T>);

/// The sending end of a channel of the standard library.
#[verifier::external_type_specification]
#[verifier::external_body]
#[verifier::reject_recursive_types(T)]
pub struct ExSender<T>(Sender<T>);

/// What a channel answers when asked without waiting.
pub enum Polled<V> {
    /// A value had been sent.
    Ready(V),
    /// Nothing has been sent yet.
    Empty,
    /// Nothing has been sent and the sender is gone.
    Disconnected,
}

/// `std::sync::mpsc::channel`: a fresh channel, as its two ends. Nothing
/// is claimed of them.
#[verifier::external_body]
pub(crate) fn channel<V>() -> (ends: (Sender<V>, Receiver<V>)) {
    std::sync::mpsc::channel()
}

/// `Sender::send`: hands `value` to the channel. A receiver that is gone
/// makes the call fail, which is ignored; nothing is claimed.
#[verifier::external_body]
pub(crate) fn send<V>(tx: &Sender<V>, value: V) {
    let _ = tx.send(value);
}

/// `Receiver::try_recv`: asks the channel without waiting. Which of the
/// three answers comes depends on what the sender has done so far, so
/// nothing is claimed of the result.
#[verifier::external_body]
pub(crate) fn try_recv<V>(rx: &Receiver<V>) -> (polled: Polled<V>) {
    match rx.try_recv() {
        Ok(value) => Polled::Ready(value),
        Err(TryRecvError::Empty) => Polled::Empty,
        Err(TryRecvError::Disconnected) => Polled::Disconnected,
    }
}

/// `Receiver::recv`: waits until a value is sent, or until the sender is
/// gone without having sent one, which gives `None`. Nothing is claimed of
/// the result.
#[verifier::external_body]
pub(crate) fn recv<V>(rx: &Receiver<V>) -> (received: Option<V>) {
    match rx.recv() {
        Ok(value) => Some(value),
        Err(_) => None,
    }
}

} // verus!
