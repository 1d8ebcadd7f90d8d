//! Trusted boundary around `std::sync::mpsc` channels.
//!
//! The reflow protocol talks to the layout worker over asynchronous channels:
//! a dispatch channel for requests, a single-use completion-signal channel per
//! outstanding reflow, and a reply channel per synchronous query.  vstd gives
//! `std::sync::mpsc` no specification, so the channel ends are declared here
//! and each operation the library performs stands behind a small wrapper.
//!
//! What a receive returns depends on the far end of the channel, so no wrapper
//! promises anything of the value that arrives; the verified callers state
//! what holds of their own state for every outcome.

use vstd::prelude::*;

verus! {

/// Relies on `std::sync::mpsc::Sender`: the sending end of an asynchronous
/// channel, declared so that it can stand in fields and signatures.
#[verifier::external_type_specification]
#[verifier::external_body]
#[verifier::reject_recursive_types(T)]
pub struct ExSender<T>(std::sync::mpsc::Sender<T>);

/// Relies on `std::sync::mpsc::Receiver`: the receiving end of an
/// asynchronous channel, declared so that it can stand in fields and
/// signatures.
#[verifier::external_type_specification]
#[verifier::external_body]
#[verifier::reject_recursive_types(T)]
pub struct ExReceiver<T>(std::sync::mpsc::Receiver<T>);

/// Outcome of a non-blocking receive attempt.
pub enum TryRecvOutcome<T> {
    /// A value was waiting in the channel.
    Value(T),
    /// The channel is open but holds no value yet.
    Empty,
    /// The sending end was dropped without a value arriving.
    Disconnected,
}

/// Relies on `std::sync::mpsc::channel`: creates a connected
/// sender/receiver pair.
#[verifier::external_body]
pub fn new_channel<T>() -> (std::sync::mpsc::Sender<T>, std::sync::mpsc::Receiver<T>) {
    std::sync::mpsc::channel()
}

/// Relies on `std::sync::mpsc::Sender::send`: queues a value without
/// blocking.  Returns whether the receiving end was still open; a `false`
/// hands the value back to the allocator, exactly as dropping it would.
#[verifier::external_body]
pub fn send_value<T>(sender: &std::sync::mpsc::Sender<T>, value: T) -> bool {
    sender.send(value).is_ok()
}

/// Relies on `std::sync::mpsc::Receiver::recv`: blocks until a value
/// arrives, or returns `None` when the sending end was dropped without one.
#[verifier::external_body]
pub fn recv_value<T>(receiver: &std::sync::mpsc::Receiver<T>) -> Option<T> {
    receiver.recv().ok()
}

/// Relies on `std::sync::mpsc::Receiver::try_recv`: reports, without
/// blocking, whether a value is waiting, the channel is empty, or the sender
/// is gone.
#[verifier::external_body]
pub fn try_recv_value<T>(receiver: &std::sync::mpsc::Receiver<T>) -> TryRecvOutcome<T> {
    match receiver.try_recv() {
        Ok(value) => TryRecvOutcome::Value(value),
        Err(std::sync::mpsc::TryRecvError::Empty) => TryRecvOutcome::Empty,
        Err(std::sync::mpsc::TryRecvError::Disconnected) => TryRecvOutcome::Disconnected,
    }
}

} // verus!
