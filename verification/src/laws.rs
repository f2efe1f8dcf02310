//! The guarantees of a successful scan, stated against a mathematical model
//! of the stream.
//!
//! An `until` call only ever observes the bytes the channel hands it, so its
//! own contract speaks of the reply alone. These lemmas place that contract in
//! the wider stream: whenever the stopping condition is a pure function of the
//! bytes, a successful reply is the unique minimal accepting prefix of any
//! stream it begins, sequential replies partition the stream, and a stream
//! with no accepting prefix admits no successful reply at all.

use vstd::prelude::*;
use crate::accepted_exactly;
use crate::replied;

verus! {

/// `shorter` is a prefix of `longer`.
pub open spec fn prefix_of(shorter: Seq<u8>, longer: Seq<u8>) -> bool {
    shorter.len() <= longer.len() && shorter == longer.take(shorter.len() as int)
}

/// The condition modelled by `accepts` first becomes true on the stream
/// prefix of length `stop`: that prefix is nonempty and accepted, and every
/// shorter nonempty prefix is rejected.
pub open spec fn stops_at(accepts: spec_fn(Seq<u8>) -> bool, stream: Seq<u8>, stop: int) -> bool {
    &&& 1 <= stop <= stream.len()
    &&& accepts(stream.take(stop))
    &&& forall|i: int| 1 <= i < stop ==> !accepts(#[trigger] stream.take(i))
}

/// The stopping condition is a pure function of the accumulated bytes:
/// every verdict it can return agrees with the model `accepts`.
pub open spec fn models<F: Fn(&Vec<u8>) -> bool>(
    predicate: F,
    accepts: spec_fn(Seq<u8>) -> bool,
) -> bool {
    forall|observed: Vec<u8>, verdict: bool|
        call_ensures(predicate, (&observed,), verdict) ==> verdict == accepts(observed@)
}

/// Law: a condition that becomes true on some prefix of the stream selects
/// exactly the minimal-length accepting prefix, in stream order. A successful
/// reply that begins the stream stops it there, and no other length does.
pub proof fn lemma_minimal_prefix<F: Fn(&Vec<u8>) -> bool>(
    predicate: F,
    accepts: spec_fn(Seq<u8>) -> bool,
    data: Vec<u8>,
    stream: Seq<u8>,
)
    requires
        models(predicate, accepts),
        accepted_exactly(predicate, data),
        prefix_of(data@, stream),
    ensures
        stops_at(accepts, stream, data@.len() as int),
        forall|stop: int| stops_at(accepts, stream, stop) ==> stop == data@.len(),
{
    assert(stream.take(data@.len() as int) == data@);
    assert(accepts(data@)) by {
        assert(call_ensures(predicate, (&data,), true));
    }
    assert forall|i: int| 1 <= i < data@.len() implies !accepts(#[trigger] stream.take(i)) by {
        assert(replied(predicate, data@.take(i), false));
        let observed = choose|observed: Vec<u8>|
            observed@ == data@.take(i) && call_ensures(predicate, (&observed,), false);
        assert(data@.take(i) =~= stream.take(i));
    }
    assert forall|stop: int| stops_at(accepts, stream, stop) implies stop == data@.len() by {
        if stop < data@.len() {
            assert(!accepts(stream.take(stop)));
        } else if stop > data@.len() {
            assert(!accepts(stream.take(data@.len() as int)));
        }
    }
}

/// Law: when no nonempty prefix of the stream satisfies the condition, no
/// reply can succeed on it: every prefix of the stream fails to be a
/// successful reply, so only `Timeout` or `Disconnected` remain.
pub proof fn lemma_no_accepting_prefix<F: Fn(&Vec<u8>) -> bool>(
    predicate: F,
    accepts: spec_fn(Seq<u8>) -> bool,
    stream: Seq<u8>,
)
    requires
        models(predicate, accepts),
        forall|i: int| 1 <= i <= stream.len() ==> !accepts(#[trigger] stream.take(i)),
    ensures
        forall|data: Vec<u8>|
            prefix_of(#[trigger] data@, stream) ==> !accepted_exactly(predicate, data),
{
    assert forall|data: Vec<u8>|
        prefix_of(#[trigger] data@, stream) implies !accepted_exactly(predicate, data) by {
        if accepted_exactly(predicate, data) {
            assert(call_ensures(predicate, (&data,), true));
            assert(accepts(data@));
            assert(stream.take(data@.len() as int) == data@);
            assert(!accepts(stream.take(data@.len() as int)));
        }
    }
}

/// Law: sequential successful calls partition the stream: when the first
/// reply begins the stream and the second begins what remains after it, their
/// concatenation is again a prefix of the stream, with no gap and no repeat.
pub proof fn lemma_sequential_partition(first: Seq<u8>, second: Seq<u8>, stream: Seq<u8>)
    requires
        prefix_of(first, stream),
        prefix_of(second, stream.skip(first.len() as int)),
    ensures
        prefix_of(first + second, stream),
        (first + second).len() == first.len() + second.len(),
{
    assert(first + second =~= stream.take(first.len() as int + second.len() as int)) by {
        assert forall|j: int| 0 <= j < first.len() + second.len() implies (first + second)[j]
            == stream[j] by {
            if j < first.len() {
                assert(first[j] == stream.take(first.len() as int)[j]);
            } else {
                assert(second[j - first.len()] == stream.skip(first.len() as int).take(
                    second.len() as int,
                )[j - first.len()]);
            }
        }
    }
}

} // verus!
