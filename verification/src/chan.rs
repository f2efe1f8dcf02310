//! Trusted boundary around the byte channel and the monotonic clock.
//!
//! The controller polls a single-producer, single-consumer queue of bytes and
//! watches a wall-clock deadline. Neither the queue nor the clock can be
//! reasoned about from within the crate, so each call is wrapped here; every
//! wrapper states only what holds of every outcome.

use vstd::prelude::*;
use std::sync::mpsc::Receiver;
use std::sync::mpsc::RecvTimeoutError;
use std::time::Duration;
use std::time::Instant;

verus! {

#[verifier::external_type_specification]
#[verifier::external_body]
#[verifier::reject_recursive_types(T)]
pub struct ExReceiver<T>(Receiver<T>);

#[verifier::external_type_specification]
#[verifier::external_body]
pub struct ExInstant(Instant);

/// One attempt to obtain the next byte from the channel.
pub enum PollEvent {
    /// The next byte, in the order the producer sent it.
    Received(u8),
    /// No byte arrived within the waiting span; the producer may still be alive.
    Empty,
    /// The producing half is gone and the queue is drained: no byte will ever arrive.
    Closed,
}

/// Relies on std::sync::mpsc::Receiver::recv_timeout: waits at most the given
/// span for the next value; buffered values are handed out in sending order
/// before closure is ever reported. Which outcome occurs depends on timing and
/// on the producer, so nothing is promised of the result.
#[verifier::external_body]
pub(crate) fn poll_byte(receiver: &Receiver<u8>, wait_ms: u64) -> PollEvent {
    match receiver.recv_timeout(Duration::from_millis(wait_ms)) {
        Ok(byte) => PollEvent::Received(byte),
        Err(RecvTimeoutError::Timeout) => PollEvent::Empty,
        Err(RecvTimeoutError::Disconnected) => PollEvent::Closed,
    }
}

/// Relies on std::time::Instant::now: one reading of the monotonic clock.
/// Nothing can be promised of a clock reading.
#[verifier::external_body]
pub(crate) fn clock_start() -> Instant {
    Instant::now()
}

/// Relies on std::time::Instant::elapsed: the whole milliseconds that have
/// passed since the reading was taken. Nothing can be promised of a duration
/// measured against the real clock.
#[verifier::external_body]
pub(crate) fn elapsed_millis(start: &Instant) -> u128 {
    start.elapsed().as_millis()
}

} // verus!
