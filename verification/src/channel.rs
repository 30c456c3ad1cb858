//! The rendezvous channels between the control side and the render side.
//!
//! Every operation on a channel is bounded: it gives up after the waiting
//! time it was given, and what could not be handed over is dropped.

use vstd::prelude::*;

verus! {

/// The waiting time, in milliseconds, that a fresh endpoint of the protocol
/// gives each channel operation.
pub const DEFAULT_INTERVAL: u32 = 250;

/// `crossbeam_channel::Sender`, the sending end of a channel. Nothing is
/// known of what is inside it.
#[verifier::external_type_specification]
#[verifier::external_body]
#[verifier::reject_recursive_types(T)]
pub struct ExSender<T>(crossbeam_channel::Sender<T>);

/// `crossbeam_channel::Receiver`, the receiving end of a channel. Nothing is
/// known of what is inside it.
#[verifier::external_type_specification]
#[verifier::external_body]
#[verifier::reject_recursive_types(T)]
pub struct ExReceiver<T>(crossbeam_channel::Receiver<T>);

/// Calls `crossbeam_channel::Sender::send_timeout` with a waiting time of
/// `millis` milliseconds and says whether the message was taken. Whether it
/// is taken depends on the other side, so nothing is claimed of the answer.
#[verifier::external_body]
pub(crate) fn offer<T>(sender: &crossbeam_channel::Sender<T>, message: T, millis: u32) -> (taken:
    bool) {
    sender.send_timeout(message, std::time::Duration::from_millis(millis as u64)).is_ok()
}

/// Calls `crossbeam_channel::Receiver::recv_timeout` with a waiting time of
/// `millis` milliseconds. What arrives, if anything, depends on the other
/// side, so nothing is claimed of it.
#[verifier::external_body]
pub(crate) fn await_message<T>(receiver: &crossbeam_channel::Receiver<T>, millis: u32) -> (message:
    Option<T>) {
    receiver.recv_timeout(std::time::Duration::from_millis(millis as u64)).ok()
}

/// Calls `crossbeam_channel::Receiver::try_recv`, which does not wait. What
/// arrives, if anything, depends on the other side, so nothing is claimed of
/// it.
#[verifier::external_body]
pub(crate) fn take_message<T>(receiver: &crossbeam_channel::Receiver<T>) -> (message: Option<T>) {
    receiver.try_recv().ok()
}

} // verus!
