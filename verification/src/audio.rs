//! Sample buffering for the audio pipeline.
//!
//! `BlockBuffer` accumulates mono samples delivered by the capture callback
//! and hands them out in blocks of exactly the resampler's required input
//! size, never a partial block. `Aggregator` coalesces small resampled PCM
//! chunks into blocks of at least a minimum length before they are handed to
//! the recognizer.

use vstd::prelude::*;

verus! {

/// Sample rate of the PCM stream handed to the recognizer, in hertz.
pub const TARGET_SAMPLE_RATE: usize = 16000;

/// Minimum number of samples in an aggregated chunk: about 200 ms of audio
/// at the target rate.
pub const AGGREGATE_THRESHOLD: usize = 16000 / 3;

/// Convert one block of interleaved two-channel samples to mono: sample `i`
/// of the result is produced by `combine` — for audio, the average of the
/// pair — from the samples at positions `2 * i` and `2 * i + 1`. A block of
/// even length `L` yields exactly `L / 2` mono samples; a trailing unpaired
/// sample is dropped rather than read out of bounds.
pub fn downmix_pairs<T: Copy, F: Fn(T, T) -> T>(data: &Vec<T>, combine: F) -> (r: Vec<T>)
    requires
        forall|a: T, b: T| call_requires(combine, (a, b)),
    ensures
        r@.len() == data@.len() / 2,
        forall|i: int| 0 <= i < r@.len()
            ==> call_ensures(combine, (data@[2 * i], data@[2 * i + 1]), r@[i]),
{
    let len = data.len();
    let n = len / 2;
    let mut out: Vec<T> = Vec::new();
    let mut i: usize = 0;
    while i < n
        invariant
            i <= n,
            len == data@.len(),
            n == len / 2,
            out@.len() == i,
            forall|a: T, b: T| call_requires(combine, (a, b)),
            forall|k: int| 0 <= k < i
                ==> call_ensures(combine, (data@[2 * k], data@[2 * k + 1]), out@[k]),
        decreases n - i,
    {
        let v = combine(data[2 * i], data[2 * i + 1]);
        out.push(v);
        i = i + 1;
    }
    out
}

/// Accumulates samples and drains them in blocks of a fixed size.
///
/// The capture callback appends whatever the driver delivered; whenever at
/// least `block_size` samples are pending, a block of exactly that size can
/// be taken from the front. Samples that do not yet fill a block stay
/// pending.
pub struct BlockBuffer<T> {
    data: Vec<T>,
    block_size: usize,
}

impl<T: Copy> BlockBuffer<T> {
    /// The samples waiting to be drained, oldest first.
    pub closed spec fn pending(&self) -> Seq<T> {
        self.data@
    }

    /// The fixed size of every block this buffer emits.
    pub closed spec fn block_size_spec(&self) -> int {
        self.block_size as int
    }

    pub fn new(block_size: usize) -> (r: Self)
        requires
            block_size >= 1,
        ensures
            r.pending() == Seq::<T>::empty(),
            r.block_size_spec() == block_size,
    {
        BlockBuffer { data: Vec::new(), block_size }
    }

    pub fn block_size(&self) -> (r: usize)
        ensures
            r == self.block_size_spec(),
    {
        self.block_size
    }

    /// Append the samples of one callback delivery to the pending buffer.
    pub fn push(&mut self, samples: &Vec<T>)
        ensures
            final(self).pending() == old(self).pending() + samples@,
            final(self).block_size_spec() == old(self).block_size_spec(),
    {
        let n = samples.len();
        let mut i: usize = 0;
        while i < n
            invariant
                i <= n,
                n == samples@.len(),
                self.data@ == old(self).data@ + samples@.subrange(0, i as int),
                self.block_size == old(self).block_size,
            decreases n - i,
        {
            self.data.push(samples[i]);
            assert(samples@.subrange(0, i as int + 1)
                == samples@.subrange(0, i as int).push(samples@[i as int]));
            i = i + 1;
        }
        assert(samples@.subrange(0, n as int) == samples@);
    }

    /// Whether a full block is pending.
    pub fn has_block(&self) -> (r: bool)
        ensures
            r == (self.pending().len() >= self.block_size_spec()),
    {
        self.data.len() >= self.block_size
    }

    /// Drain one block of exactly `block_size` samples from the front, or
    /// nothing if fewer than `block_size` samples are pending. A partial
    /// block is never emitted.
    pub fn take_block(&mut self) -> (out: Option<Vec<T>>)
        ensures
            final(self).block_size_spec() == old(self).block_size_spec(),
            old(self).pending().len() >= old(self).block_size_spec() ==> {
                &&& out is Some
                &&& out.unwrap()@ == old(self).pending().subrange(0, old(self).block_size_spec())
                &&& final(self).pending() == old(self).pending().skip(old(self).block_size_spec())
            },
            old(self).pending().len() < old(self).block_size_spec() ==> {
                &&& out is None
                &&& final(self).pending() == old(self).pending()
            },
            out matches Some(b) ==> b@.len() == old(self).block_size_spec(),
    {
        if self.data.len() < self.block_size {
            return None;
        }
        let k = self.block_size;
        let n = self.data.len();
        let mut block: Vec<T> = Vec::new();
        let mut i: usize = 0;
        while i < k
            invariant
                i <= k,
                k <= n,
                n == self.data@.len(),
                self.data@ == old(self).data@,
                block@ == self.data@.subrange(0, i as int),
            decreases k - i,
        {
            block.push(self.data[i]);
            assert(self.data@.subrange(0, i as int + 1)
                == self.data@.subrange(0, i as int).push(self.data@[i as int]));
            i = i + 1;
        }
        let mut rest: Vec<T> = Vec::new();
        let mut j: usize = k;
        while j < n
            invariant
                k <= j <= n,
                n == self.data@.len(),
                self.data@ == old(self).data@,
                rest@ == self.data@.subrange(k as int, j as int),
            decreases n - j,
        {
            rest.push(self.data[j]);
            assert(self.data@.subrange(k as int, j as int + 1)
                == self.data@.subrange(k as int, j as int).push(self.data@[j as int]));
            j = j + 1;
        }
        self.data = rest;
        assert(self.data@ == old(self).data@.skip(k as int));
        Some(block)
    }
}

/// What feeding one chunk to an accumulator with the given pending samples
/// and threshold does: the new pending samples, and the aggregated chunk
/// emitted, if any. Everything accumulated is emitted as soon as the
/// threshold is reached, and the accumulator starts over from empty.
pub open spec fn agg_step(
    pending: Seq<i16>,
    threshold: int,
    chunk: Seq<i16>,
) -> (Seq<i16>, Option<Seq<i16>>) {
    let combined = pending + chunk;
    if combined.len() >= threshold {
        (Seq::<i16>::empty(), Some(combined))
    } else {
        (combined, None::<Seq<i16>>)
    }
}

/// Coalesces resampled PCM chunks until at least `threshold` samples have
/// accumulated, then emits everything accumulated as one aggregated chunk
/// and starts over from an empty accumulator.
pub struct Aggregator {
    buffer: Vec<i16>,
    threshold: usize,
}

impl Aggregator {
    /// The samples accumulated so far, oldest first.
    pub closed spec fn pending(&self) -> Seq<i16> {
        self.buffer@
    }

    /// The minimum length of an emitted chunk.
    pub closed spec fn threshold_spec(&self) -> int {
        self.threshold as int
    }

    pub fn new(threshold: usize) -> (r: Self)
        requires
            threshold >= 1,
        ensures
            r.pending() == Seq::<i16>::empty(),
            r.threshold_spec() == threshold,
    {
        Aggregator { buffer: Vec::new(), threshold }
    }

    pub fn threshold(&self) -> (r: usize)
        ensures
            r == self.threshold_spec(),
    {
        self.threshold
    }

    /// Feed one resampled chunk. If the accumulated samples (including this
    /// chunk) reach the threshold, they are all emitted as one aggregated
    /// chunk and the accumulator is left empty; otherwise nothing is emitted
    /// and the chunk stays accumulated.
    pub fn push(&mut self, chunk: &Vec<i16>) -> (out: Option<Vec<i16>>)
        ensures
            final(self).threshold_spec() == old(self).threshold_spec(),
            final(self).pending()
                == agg_step(old(self).pending(), old(self).threshold_spec(), chunk@).0,
            (match out {
                Some(c) => Some(c@),
                None => None::<Seq<i16>>,
            }) == agg_step(old(self).pending(), old(self).threshold_spec(), chunk@).1,
    {
        let n = chunk.len();
        let mut i: usize = 0;
        while i < n
            invariant
                i <= n,
                n == chunk@.len(),
                self.buffer@ == old(self).buffer@ + chunk@.subrange(0, i as int),
                self.threshold == old(self).threshold,
            decreases n - i,
        {
            self.buffer.push(chunk[i]);
            assert(chunk@.subrange(0, i as int + 1)
                == chunk@.subrange(0, i as int).push(chunk@[i as int]));
            i = i + 1;
        }
        assert(chunk@.subrange(0, n as int) == chunk@);
        if self.buffer.len() >= self.threshold {
            let mut emitted: Vec<i16> = Vec::new();
            core::mem::swap(&mut emitted, &mut self.buffer);
            Some(emitted)
        } else {
            None
        }
    }
}

/// An aggregated chunk is emitted exactly when the accumulated samples,
/// including the chunk just fed, reach the threshold; it carries all of
/// them, so it is never shorter than the threshold; and the accumulator is
/// empty immediately after an emission and otherwise keeps everything.
pub proof fn lemma_agg_step_boundaries(pending: Seq<i16>, threshold: int, chunk: Seq<i16>)
    ensures
        agg_step(pending, threshold, chunk).1 is Some
            <==> pending.len() + chunk.len() >= threshold,
        agg_step(pending, threshold, chunk).1 matches Some(c) ==> {
            &&& c == pending + chunk
            &&& c.len() >= threshold
            &&& agg_step(pending, threshold, chunk).0 == Seq::<i16>::empty()
        },
        agg_step(pending, threshold, chunk).1 is None
            ==> agg_step(pending, threshold, chunk).0 == pending + chunk,
{
}

/// Aggregation is a function of the accumulated samples, the threshold and
/// the chunk fed, and of nothing else: two aggregators in equal states fed
/// equal chunks emit the same thing and end in equal states. Feeding the
/// same chunk sequence twice therefore produces the same aggregation
/// boundaries.
pub proof fn lemma_aggregation_deterministic(
    a: Aggregator,
    b: Aggregator,
    chunk: Seq<i16>,
)
    requires
        a.threshold_spec() == b.threshold_spec(),
        a.pending() == b.pending(),
    ensures
        agg_step(a.pending(), a.threshold_spec(), chunk)
            == agg_step(b.pending(), b.threshold_spec(), chunk),
{
}

} // verus!
