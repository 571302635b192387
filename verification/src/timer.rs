//! Free-running microsecond counter read as two 32-bit words.
//!
//! The hardware exposes one 64-bit counter as a low word and a high word at
//! consecutive addresses; both halves belong to the same counter, so the
//! combined value never decreases. The verified timer holds a trace of word
//! pairs sampled from such a counter and replays them: each query returns the
//! pair under the cursor, reassembled into 64 bits, and moves the cursor
//! forward until the trace's last sample, where it stays.

use vstd::prelude::*;

verus! {

/// 64-bit counter value assembled from its low and high words.
pub open spec fn counter_from_words_spec(lo: u32, hi: u32) -> u64 {
    ((hi as int) * 0x1_0000_0000 + lo as int) as u64
}

/// Reassemble the counter from the two words of the same register pair.
pub fn counter_from_words(lo: u32, hi: u32) -> (counter: u64)
    ensures
        counter == counter_from_words_spec(lo, hi),
{
    proof {
        assert(((hi as u64) << 32u64) | (lo as u64) == (((hi as int) * 0x1_0000_0000
            + lo as int)) as u64) by (bit_vector);
    }
    ((hi as u64) << 32u64) | (lo as u64)
}

/// Split a counter value into the low and high words the hardware would hold;
/// the inverse of [`counter_from_words`].
pub fn counter_words(counter: u64) -> (words: (u32, u32))
    ensures
        counter_from_words_spec(words.0, words.1) == counter,
        words.0 == counter % 0x1_0000_0000,
        words.1 == counter / 0x1_0000_0000,
{
    proof {
        assert((counter & 0xFFFF_FFFF) as u32 == counter % 0x1_0000_0000 && (counter >> 32u64)
            as u32 == counter / 0x1_0000_0000 && ((((counter >> 32u64) as u32) as int)
            * 0x1_0000_0000 + ((counter & 0xFFFF_FFFF) as u32) as int) as u64 == counter)
            by (bit_vector);
    }
    ((counter & 0xFFFF_FFFF) as u32, (counter >> 32u64) as u32)
}

/// A monotonic timer replaying sampled counter words.
///
/// `lo_words[i]` and `hi_words[i]` are the two halves of the `i`-th sample of
/// the free-running counter; the combined samples never decrease, mirroring
/// the hardware counter's monotonicity. `next` is the cursor of the sample
/// the following query will return.
pub struct Timer {
    lo_words: Vec<u32>,
    hi_words: Vec<u32>,
    next: usize,
}

impl Timer {
    /// Low words of the sampled trace.
    pub closed spec fn lo(self) -> Seq<u32> {
        self.lo_words@
    }

    /// High words of the sampled trace.
    pub closed spec fn hi(self) -> Seq<u32> {
        self.hi_words@
    }

    /// Cursor of the sample the next query returns.
    pub closed spec fn cursor(self) -> int {
        self.next as int
    }

    /// Number of samples in the trace.
    pub open spec fn sample_count(self) -> int {
        self.lo().len() as int
    }

    /// Combined 64-bit counter value of sample `i`.
    pub open spec fn counter_at(self, i: int) -> u64 {
        counter_from_words_spec(self.lo()[i], self.hi()[i])
    }

    /// The trace is well formed: the word vectors pair up, at least one
    /// sample exists, the cursor points at a sample, and the combined values
    /// never decrease from one sample to the next.
    pub open spec fn wf(self) -> bool {
        &&& self.hi().len() == self.lo().len()
        &&& 1 <= self.sample_count()
        &&& 0 <= self.cursor() < self.sample_count()
        &&& forall|i: int|
            0 <= i < self.sample_count() - 1 ==> #[trigger] self.counter_at(i) <= self.counter_at(
                i + 1,
            )
    }

    /// Counter value under the cursor: what the next query will report.
    pub open spec fn current(self) -> u64 {
        self.counter_at(self.cursor())
    }

    /// Build a timer from raw low/high word samples. The samples are accepted
    /// exactly when the two vectors pair up, at least one sample exists, and
    /// the combined counter values never decrease.
    pub fn from_words(lo_words: Vec<u32>, hi_words: Vec<u32>) -> (timer: Option<Timer>)
        ensures
            timer is Some <==> {
                &&& lo_words@.len() == hi_words@.len()
                &&& 1 <= lo_words@.len()
                &&& forall|i: int|
                    0 <= i < lo_words@.len() - 1 ==> #[trigger] counter_from_words_spec(
                        lo_words@[i],
                        hi_words@[i],
                    ) <= counter_from_words_spec(lo_words@[i + 1], hi_words@[i + 1])
            },
            timer matches Some(t) ==> {
                &&& t.wf()
                &&& t.lo() == lo_words@
                &&& t.hi() == hi_words@
                &&& t.cursor() == 0
            },
    {
        if lo_words.len() != hi_words.len() || lo_words.len() == 0 {
            return None;
        }
        let mut checked: usize = 1;
        while checked < lo_words.len()
            invariant
                1 <= checked <= lo_words@.len(),
                lo_words@.len() == hi_words@.len(),
                forall|i: int|
                    0 <= i < checked - 1 ==> #[trigger] counter_from_words_spec(
                        lo_words@[i],
                        hi_words@[i],
                    ) <= counter_from_words_spec(lo_words@[i + 1], hi_words@[i + 1]),
            decreases lo_words@.len() - checked,
        {
            let prev = counter_from_words(lo_words[checked - 1], hi_words[checked - 1]);
            let here = counter_from_words(lo_words[checked], hi_words[checked]);
            if here < prev {
                return None;
            }
            checked = checked + 1;
        }
        Some(Timer { lo_words, hi_words, next: 0 })
    }

    /// Build a timer from already-combined counter values, splitting each
    /// into the word pair the hardware would hold. The values are accepted
    /// exactly when at least one exists and they never decrease.
    pub fn from_values(values: Vec<u64>) -> (timer: Option<Timer>)
        ensures
            timer is Some <==> {
                &&& 1 <= values@.len()
                &&& forall|i: int|
                    0 <= i < values@.len() - 1 ==> #[trigger] values@[i] <= values@[i + 1]
            },
            timer matches Some(t) ==> {
                &&& t.wf()
                &&& t.sample_count() == values@.len()
                &&& t.cursor() == 0
                &&& forall|i: int| 0 <= i < values@.len() ==> t.counter_at(i) == values@[i]
            },
    {
        if values.len() == 0 {
            return None;
        }
        let mut lo_words: Vec<u32> = Vec::new();
        let mut hi_words: Vec<u32> = Vec::new();
        let mut split: usize = 0;
        while split < values.len()
            invariant
                split <= values@.len(),
                lo_words@.len() == split,
                hi_words@.len() == split,
                forall|i: int|
                    0 <= i < split ==> counter_from_words_spec(lo_words@[i], hi_words@[i])
                        == values@[i],
            decreases values@.len() - split,
        {
            let words = counter_words(values[split]);
            lo_words.push(words.0);
            hi_words.push(words.1);
            split = split + 1;
        }
        let mut checked: usize = 1;
        while checked < values.len()
            invariant
                1 <= checked <= values@.len(),
                forall|i: int| 0 <= i < checked - 1 ==> #[trigger] values@[i] <= values@[i + 1],
            decreases values@.len() - checked,
        {
            if values[checked] < values[checked - 1] {
                return None;
            }
            checked = checked + 1;
        }
        let timer = Timer { lo_words, hi_words, next: 0 };
        proof {
            assert forall|i: int| 0 <= i < timer.sample_count() implies #[trigger] timer.counter_at(
                i,
            ) == values@[i] by {
                assert(counter_from_words_spec(timer.lo()[i], timer.hi()[i]) == values@[i]);
            }
            assert forall|i: int|
                0 <= i < timer.sample_count() - 1 implies #[trigger] timer.counter_at(i)
                <= timer.counter_at(i + 1) by {
                assert(timer.counter_at(i) == values@[i]);
                assert(timer.counter_at(i + 1) == values@[i + 1]);
            }
        }
        Some(timer)
    }

    /// Read the counter: return the sample under the cursor, low word and
    /// high word combined, and advance the cursor unless it already rests on
    /// the last sample. The value reported never decreases from one query to
    /// the next.
    pub fn now(&mut self) -> (counter: u64)
        requires
            old(self).wf(),
        ensures
            final(self).wf(),
            final(self).lo() == old(self).lo(),
            final(self).hi() == old(self).hi(),
            counter == old(self).current(),
            final(self).cursor() == if old(self).cursor() + 1 < old(self).sample_count() {
                old(self).cursor() + 1
            } else {
                old(self).cursor()
            },
            counter <= final(self).current(),
    {
        let lo = self.lo_words[self.next];
        let hi = self.hi_words[self.next];
        if self.next < self.lo_words.len() - 1 {
            self.next = self.next + 1;
        }
        proof {
            assert forall|i: int|
                0 <= i < self.sample_count() - 1 implies #[trigger] self.counter_at(i)
                <= self.counter_at(i + 1) by {
                assert(old(self).counter_at(i) <= old(self).counter_at(i + 1));
            }
            assert(old(self).counter_at(old(self).cursor()) <= self.counter_at(self.cursor())) by {
                assert(old(self).counter_at(self.cursor()) == self.counter_at(self.cursor()));
            }
        }
        counter_from_words(lo, hi)
    }

    /// Cursor position, for observing how many samples queries consumed.
    pub fn position(&self) -> (pos: usize)
        ensures
            pos == self.cursor(),
    {
        self.next
    }

    /// Number of samples in the trace.
    pub fn samples(&self) -> (n: usize)
        ensures
            n == self.sample_count(),
    {
        self.lo_words.len()
    }
}

/// Law: the counter is monotonic. Any later sample of a well-formed trace is
/// at least as large as any earlier one, so two successive reads can never
/// report decreasing values.
pub proof fn lemma_counter_monotonic(timer: Timer, i: int, j: int)
    requires
        timer.wf(),
        0 <= i <= j < timer.sample_count(),
    ensures
        timer.counter_at(i) <= timer.counter_at(j),
    decreases j - i,
{
    if i < j {
        lemma_counter_monotonic(timer, i + 1, j);
    }
}

} // verus!
