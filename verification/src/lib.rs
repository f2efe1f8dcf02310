//! Consume a byte stream under a caller-supplied stopping condition and a
//! hard time budget.
//!
//! A background byte pump (run by the host program) forwards single blocking
//! reads into a bounded single-producer, single-consumer channel. The
//! [`ReadUntil`] controller owns the consuming half and a per-call deadline:
//! each [`ReadUntilOrTimeout::until`] call accumulates bytes in arrival order,
//! evaluates the stopping condition after every newly obtained byte, and
//! returns the first accepted prefix, a `Timeout` once the deadline elapses,
//! or `Disconnected` once the producer is gone for good.

use vstd::prelude::*;
use std::sync::mpsc::Receiver;

mod chan;
pub mod laws;
pub mod text;

pub use text::lossy_contains;

use chan::PollEvent;
use text::lossy_of;
use text::spec_contains;

verus! {

/// How long the controller waits on the channel in one poll attempt, so that
/// the deadline stays responsive at this granularity.
pub const POLL_WAIT_MS: u64 = 1;

/// Hard bound on the poll attempts of one call, so that every call performs
/// finitely many steps. It exceeds what any deadline a machine can wait out
/// admits; a call that somehow spends it ends in a timeout.
pub const MAX_POLL_ATTEMPTS: u64 = u64::MAX;

/// Why an `until` call ended without an accepted prefix.
#[derive(Debug, PartialEq, Eq, Structural)]
pub enum ReadUntilError {
    /// The deadline elapsed before any accumulated prefix was accepted.
    /// Recoverable: bytes keep arriving and a later call may succeed.
    Timeout,
    /// The producer is gone and the channel is drained: no byte will ever
    /// arrive again, so no later call on this controller can succeed either.
    Disconnected,
}

/// One call of the stopping condition on bytes equal to `data` can return
/// `verdict`.
pub open spec fn replied<F: Fn(&Vec<u8>) -> bool>(
    predicate: F,
    data: Seq<u8>,
    verdict: bool,
) -> bool {
    exists|observed: Vec<u8>|
        observed@ == data && call_ensures(predicate, (&observed,), verdict)
}

/// `data` is the reply of a successful scan: the condition rejected every
/// proper nonempty prefix, in arrival order, and accepted the whole.
pub open spec fn accepted_exactly<F: Fn(&Vec<u8>) -> bool>(predicate: F, data: Vec<u8>) -> bool {
    &&& data@.len() >= 1
    &&& call_ensures(predicate, (&data,), true)
    &&& forall|i: int|
        1 <= i < data@.len() ==> replied(predicate, #[trigger] data@.take(i), false)
}

/// `data` is the reply of a successful substring scan: its decoded text
/// contains the pattern, and the decoded text of every proper nonempty prefix
/// does not.
pub open spec fn contains_exactly(data: Seq<u8>, pattern: Seq<char>) -> bool {
    &&& data.len() >= 1
    &&& spec_contains(lossy_of(data), pattern)
    &&& forall|i: int|
        1 <= i < data.len() ==> !spec_contains(lossy_of(#[trigger] data.take(i)), pattern)
}

/// Accumulates bytes from a shared stream until a stopping condition holds or
/// a deadline elapses.
pub trait ReadUntilOrTimeout {
    /// Accumulates bytes in arrival order, evaluating `predicate` once after
    /// every newly obtained byte, and returns the first accepted prefix.
    /// Unconsumed bytes stay queued for the next call. Fails with `Timeout`
    /// when the deadline elapses first, and with `Disconnected` when the
    /// producer is gone and the queue is drained.
    fn until<F: Fn(&Vec<u8>) -> bool>(&self, predicate: F) -> (reply: Result<
        Vec<u8>,
        ReadUntilError,
    >)
        requires
            forall|data: Vec<u8>| call_requires(predicate, (&data,)),
        ensures
            (reply matches Ok(data) ==> accepted_exactly(predicate, data)),
    ;

    /// Accumulates bytes until their lenient UTF-8 decoding contains
    /// `pattern`: sugar over `until` with no state or failure mode of its own.
    fn until_contains(&self, pattern: String) -> (reply: Result<Vec<u8>, ReadUntilError>)
        ensures
            (reply matches Ok(data) ==> contains_exactly(data@, pattern@)),
    ;
}

/// The consuming half of the byte channel together with the per-call
/// deadline. It holds no other state: whatever one call leaves unconsumed
/// simply stays in the channel for the next.
pub struct ReadUntil {
    receiver: Receiver<u8>,
    timeout_ms: u64,
}

impl ReadUntil {
    /// The wall-clock budget of each `until` call, in whole milliseconds.
    pub closed spec fn timeout_millis(&self) -> u64 {
        self.timeout_ms
    }

    /// The consuming half this controller polls.
    pub closed spec fn channel_half(&self) -> Receiver<u8> {
        self.receiver
    }

    /// Binds a controller to the consuming half of a byte channel. The
    /// producing half belongs to the byte pump that owns the stream; the
    /// deadline applies anew to each subsequent `until` call.
    pub fn new(receiver: Receiver<u8>, timeout_ms: u64) -> (controller: ReadUntil)
        ensures
            controller.channel_half() == receiver,
            controller.timeout_millis() == timeout_ms,
    {
        ReadUntil { receiver, timeout_ms }
    }
}

impl ReadUntilOrTimeout for ReadUntil {
    fn until<F: Fn(&Vec<u8>) -> bool>(&self, predicate: F) -> (reply: Result<
        Vec<u8>,
        ReadUntilError,
    >) {
        let start = chan::clock_start();
        let mut accumulated: Vec<u8> = Vec::new();
        let mut polls_left: u64 = MAX_POLL_ATTEMPTS;
        loop
            invariant
                forall|data: Vec<u8>| call_requires(predicate, (&data,)),
                forall|i: int|
                    1 <= i <= accumulated@.len() ==> replied(
                        predicate,
                        #[trigger] accumulated@.take(i),
                        false,
                    ),
            decreases polls_left,
        {
            if polls_left == 0 || chan::elapsed_millis(&start) > self.timeout_ms as u128 {
                return Err(ReadUntilError::Timeout);
            }
            polls_left = polls_left - 1;
            match chan::poll_byte(&self.receiver, POLL_WAIT_MS) {
                PollEvent::Received(byte) => {
                    let ghost before = accumulated@;
                    accumulated.push(byte);
                    if predicate(&accumulated) {
                        proof {
                            assert forall|i: int| 1 <= i < accumulated@.len() implies replied(
                                predicate,
                                #[trigger] accumulated@.take(i),
                                false,
                            ) by {
                                assert(accumulated@.take(i) =~= before.take(i));
                            }
                        }
                        return Ok(accumulated);
                    }
                    proof {
                        assert forall|i: int| 1 <= i <= accumulated@.len() implies replied(
                            predicate,
                            #[trigger] accumulated@.take(i),
                            false,
                        ) by {
                            if i <= before.len() {
                                assert(accumulated@.take(i) =~= before.take(i));
                            } else {
                                assert(accumulated@.take(i) =~= accumulated@);
                                assert(call_ensures(predicate, (&accumulated,), false));
                            }
                        }
                    }
                }
                PollEvent::Empty => {
                }
                PollEvent::Closed => {
                    return Err(ReadUntilError::Disconnected);
                }
            }
        }
    }

    fn until_contains(&self, pattern: String) -> (reply: Result<Vec<u8>, ReadUntilError>) {
        let matches_pattern = |data: &Vec<u8>| -> (found: bool)
            ensures
                found == spec_contains(lossy_of(data@), pattern@),
            { lossy_contains(data, pattern.as_str()) };
        let reply = self.until(matches_pattern);
        proof {
            if let Ok(data) = &reply {
                assert forall|i: int| 1 <= i < data@.len() implies !spec_contains(
                    lossy_of(#[trigger] data@.take(i)),
                    pattern@,
                ) by {
                    assert(replied(matches_pattern, data@.take(i), false));
                    let observed = choose|observed: Vec<u8>|
                        observed@ == data@.take(i) && call_ensures(
                            matches_pattern,
                            (&observed,),
                            false,
                        );
                    assert(!spec_contains(lossy_of(observed@), pattern@));
                }
            }
        }
        reply
    }
}

} // verus!
