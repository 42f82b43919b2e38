//! The command channels from the controller to the workers.
//!
//! The controller issues seek and epoch commands to the demuxer and
//! the decoder over unbounded single-producer/single-consumer channels
//! of `std::sync::mpsc`. A channel is shared mutable state between two
//! threads, so nothing is assumed here about what a poll returns: the
//! verified callers state what holds of their own state whatever came
//! back.

use vstd::prelude::*;

use std::sync::mpsc::Receiver;
use std::sync::mpsc::Sender;

verus! {

#[verifier::external_type_specification]
#[verifier::external_body]
#[verifier::reject_recursive_types(T)]
pub struct ExSender<T>(Sender<T>);

#[verifier::external_type_specification]
#[verifier::external_body]
#[verifier::reject_recursive_types(T)]
pub struct ExReceiver<T>(Receiver<T>);

/// Relies on std::sync::mpsc::channel: makes a connected sender and
/// receiver pair.
#[verifier::external_body]
pub fn channel_u64() -> (Sender<u64>, Receiver<u64>) {
    std::sync::mpsc::channel()
}

/// Relies on std::sync::mpsc::channel: makes a connected sender and
/// receiver pair.
#[verifier::external_body]
pub fn channel_i64() -> (Sender<i64>, Receiver<i64>) {
    std::sync::mpsc::channel()
}

/// Relies on std::sync::mpsc::Sender::send, which fails only when the
/// receiving end is gone; `false` is the shutdown signal.
#[verifier::external_body]
pub fn send_u64(tx: &Sender<u64>, v: u64) -> bool {
    tx.send(v).is_ok()
}

/// Relies on std::sync::mpsc::Sender::send, which fails only when the
/// receiving end is gone; `false` is the shutdown signal.
#[verifier::external_body]
pub fn send_i64(tx: &Sender<i64>, v: i64) -> bool {
    tx.send(v).is_ok()
}

/// Relies on std::sync::mpsc::Receiver::try_recv: a non-blocking poll,
/// `None` when nothing is pending or the sender is gone.
#[verifier::external_body]
pub fn try_recv_u64(rx: &Receiver<u64>) -> Option<u64> {
    rx.try_recv().ok()
}

/// Relies on std::sync::mpsc::Receiver::try_recv: a non-blocking poll,
/// `None` when nothing is pending or the sender is gone.
#[verifier::external_body]
pub fn try_recv_i64(rx: &Receiver<i64>) -> Option<i64> {
    rx.try_recv().ok()
}

} // verus!
