//! The bounded sample buffer of the `ringbuffer` crate, as far as the light history
//! uses it.
//!
//! An [`AllocRingBuffer`] is opaque to the proofs of this crate. What it holds is
//! named by [`ring_contents`], the limit it was made with by [`ring_capacity`], the
//! number of samples it has taken in by [`ring_taken`], and the functions below
//! state, without proof, what the crate's methods do to the three.
use ringbuffer::AllocRingBuffer;
use ringbuffer::RingBuffer;
use vstd::prelude::*;

verus! {

#[verifier::external_type_specification]
#[verifier::external_body]
#[verifier::reject_recursive_types(T)]
pub struct ExAllocRingBuffer<T>(AllocRingBuffer<T>);

/// The samples a buffer holds, the one enqueued longest ago first.
pub uninterp spec fn ring_contents(buf: AllocRingBuffer<u32>) -> Seq<u32>;

/// The number of samples a buffer was made to hold.
pub uninterp spec fn ring_capacity(buf: AllocRingBuffer<u32>) -> nat;

/// The number of samples a buffer has taken in since it was made. The crate keeps
/// this count in a `usize` and adds to it with every sample.
pub uninterp spec fn ring_taken(buf: AllocRingBuffer<u32>) -> nat;

/// Largest capacity a buffer is asked for: a power of two whose allocation of
/// four-byte samples still fits a 32-bit address space.
pub const MAX_RING_CAPACITY: usize = 0x1000_0000;

/// Step of a buffer's contents when `value` is enqueued: a full buffer gives up its
/// oldest sample, and the new one always comes last.
pub open spec fn enqueued(contents: Seq<u32>, capacity: nat, value: u32) -> Seq<u32> {
    if contents.len() == capacity {
        contents.drop_first().push(value)
    } else {
        contents.push(value)
    }
}

/// `AllocRingBuffer::new`: an empty buffer of the capacity asked for. The crate
/// panics on a capacity of zero and rounds the allocation up to a power of two, so
/// both ends of the range are left out.
#[verifier::external_body]
pub(crate) fn ring_new(capacity: usize) -> (buf: AllocRingBuffer<u32>)
    requires
        0 < capacity <= MAX_RING_CAPACITY,
    ensures
        ring_contents(buf) == Seq::<u32>::empty(),
        ring_capacity(buf) == capacity,
        ring_taken(buf) == 0,
{
    AllocRingBuffer::new(capacity)
}

/// `RingBuffer::enqueue`: appends `value`; a buffer that already holds as many
/// samples as its capacity first drops the oldest one. The capacity stays, and the
/// count of samples taken in goes up by one: it must have room for that, or the
/// addition overflows. Short of that the method has nothing to panic on.
#[verifier::external_body]
pub(crate) fn ring_enqueue(buf: &mut AllocRingBuffer<u32>, value: u32)
    requires
        ring_taken(*old(buf)) < usize::MAX,
    ensures
        ring_capacity(*final(buf)) == ring_capacity(*old(buf)),
        ring_taken(*final(buf)) == ring_taken(*old(buf)) + 1,
        ring_contents(*final(buf)) == enqueued(
            ring_contents(*old(buf)),
            ring_capacity(*old(buf)),
            value,
        ),
    no_unwind
{
    let _ = buf.enqueue(value);
}

/// `RingBuffer::is_empty`: whether the buffer holds no sample.
#[verifier::external_body]
pub(crate) fn ring_is_empty(buf: &AllocRingBuffer<u32>) -> (empty: bool)
    ensures
        empty == (ring_contents(*buf).len() == 0),
{
    buf.is_empty()
}

/// `RingBuffer::iter`: the samples in the order the buffer hands them out, from the
/// oldest to the newest, copied into a vector.
#[verifier::external_body]
pub(crate) fn ring_samples(buf: &AllocRingBuffer<u32>) -> (samples: Vec<u32>)
    ensures
        samples@ == ring_contents(*buf),
{
    buf.iter().copied().collect()
}

} // verus!
