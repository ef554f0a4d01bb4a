//! The light history: a short run of illuminance samples and the judgement, taken
//! from their median, whether the surroundings are dark.
use crate::median::count_up_to;
use crate::median::law_median_has_median_rank;
use crate::median::lemma_count_grows;
use crate::median::median;
use crate::median::median_index;
use crate::median::median_of;
use crate::ring::enqueued;
use crate::ring::ring_capacity;
use crate::ring::ring_contents;
use crate::ring::ring_enqueue;
use crate::ring::ring_is_empty;
use crate::ring::ring_new;
use crate::ring::ring_samples;
use crate::ring::ring_taken;
use crate::ring::MAX_RING_CAPACITY;
use ringbuffer::AllocRingBuffer;
use vstd::prelude::*;

verus! {

/// The judgement on a run of samples: dark when there is a sample at all and the
/// median does not exceed `threshold`. Without a sample nothing counts as dark.
pub open spec fn dark_enough(samples: Seq<u32>, threshold: u32) -> bool {
    samples.len() > 0 && median(samples) <= threshold
}

/// The smoothed illuminance of a run of samples: their median, and nothing while
/// there is no sample.
pub open spec fn smoothed_lux(samples: Seq<u32>) -> Option<u32> {
    if samples.len() == 0 {
        None
    } else {
        Some(median(samples))
    }
}

/// The judgement goes by the greater part of the samples: it is dark exactly when
/// more samples than lie below the middle place are within the threshold. A few
/// bright samples among many dark ones, or the other way round, change nothing.
pub proof fn law_dark_when_most_samples_are(samples: Seq<u32>, threshold: u32)
    ensures
        dark_enough(samples, threshold) <==> samples.len() > 0 && count_up_to(samples, threshold)
            > median_index(samples.len()),
{
    if samples.len() > 0 {
        law_median_has_median_rank(samples);
        let m = median(samples);
        if m <= threshold {
            lemma_count_grows(samples, |sample: u32| sample <= m, |sample: u32| sample <= threshold);
        } else {
            lemma_count_grows(samples, |sample: u32| sample <= threshold, |sample: u32| sample < m);
        }
    }
}

/// A new buffer of `capacity` that holds the samples of `held`, in their order.
fn ring_of(capacity: usize, held: &Vec<u32>) -> (buf: AllocRingBuffer<u32>)
    requires
        0 < capacity <= MAX_RING_CAPACITY,
        held@.len() <= capacity,
    ensures
        ring_contents(buf) == held@,
        ring_capacity(buf) == capacity,
        ring_taken(buf) == held@.len(),
{
    let mut buf = ring_new(capacity);
    let mut i: usize = 0;
    while i < held.len()
        invariant
            i <= held@.len() <= capacity <= MAX_RING_CAPACITY,
            ring_contents(buf) == held@.take(i as int),
            ring_capacity(buf) == capacity,
            ring_taken(buf) == i,
        decreases held@.len() - i,
    {
        ring_enqueue(&mut buf, held[i]);
        assert(held@.take(i as int).push(held@[i as int]) == held@.take(i + 1));
        i += 1;
    }
    assert(held@.take(held@.len() as int) == held@);
    buf
}

/// The last samples of the ambient light sensor, oldest first, with the threshold
/// they are judged by. Samples are whole numbers of one unit of the caller's choice,
/// the unit of the threshold.
#[derive(Debug)]
pub struct LightHistory {
    samples: AllocRingBuffer<u32>,
    threshold: u32,
    capacity: usize,
    /// No less than the number of samples `samples` has taken in since it was made.
    taken: usize,
}

impl View for LightHistory {
    type V = Seq<u32>;

    /// The samples held, the oldest first.
    closed spec fn view(&self) -> Seq<u32> {
        ring_contents(self.samples)
    }
}

impl LightHistory {
    /// The number of samples the history keeps at most.
    pub closed spec fn capacity(&self) -> nat {
        ring_capacity(self.samples)
    }

    /// The illuminance up to which the surroundings count as dark.
    pub closed spec fn threshold(&self) -> u32 {
        self.threshold
    }

    /// A history has room for at least one sample and never holds more than its
    /// capacity, and it keeps track of how many samples its buffer has taken in.
    #[verifier::type_invariant]
    spec fn inv(&self) -> bool {
        &&& 0 < self.capacity <= MAX_RING_CAPACITY
        &&& ring_capacity(self.samples) == self.capacity
        &&& ring_contents(self.samples).len() <= self.capacity
        &&& ring_taken(self.samples) <= self.taken
    }

    /// An empty history for `capacity` samples, judged by `threshold`.
    pub fn new(capacity: usize, threshold: u32) -> (history: LightHistory)
        requires
            0 < capacity <= MAX_RING_CAPACITY,
        ensures
            history@ == Seq::<u32>::empty(),
            history.capacity() == capacity,
            history.threshold() == threshold,
    {
        LightHistory { samples: ring_new(capacity), threshold, capacity, taken: 0 }
    }

    /// Takes `lux` in as the newest sample. A full history gives up its oldest
    /// sample for it.
    pub fn record(&mut self, lux: u32)
        ensures
            final(self)@ == enqueued(old(self)@, old(self).capacity(), lux),
            final(self).capacity() == old(self).capacity(),
            final(self).threshold() == old(self).threshold(),
            final(self)@.len() <= final(self).capacity(),
            final(self)@.len() > 0,
            final(self)@.last() == lux,
    {
        proof {
            use_type_invariant(&*self);
        }
        if self.taken == usize::MAX {
            // The buffer's own count is about to run out: carry on in a new buffer.
            let held = ring_samples(&self.samples);
            let taken = held.len();
            *self = LightHistory {
                samples: ring_of(self.capacity, &held),
                threshold: self.threshold,
                capacity: self.capacity,
                taken,
            };
        }
        self.taken = self.taken + 1;
        ring_enqueue(&mut self.samples, lux);
    }

    /// The smoothed illuminance: the median of the samples held, or nothing while
    /// the history is empty.
    pub fn lux_level(&self) -> (level: Option<u32>)
        ensures
            level == smoothed_lux(self@),
    {
        if ring_is_empty(&self.samples) {
            None
        } else {
            let samples = ring_samples(&self.samples);
            Some(median_of(&samples))
        }
    }

    /// Whether the surroundings are dark: there is a sample, and the median of the
    /// samples does not exceed the threshold.
    pub fn is_dark_enough(&self) -> (dark: bool)
        ensures
            dark == dark_enough(self@, self.threshold()),
    {
        match self.lux_level() {
            Some(lux) => lux <= self.threshold,
            None => false,
        }
    }
}

} // verus!
