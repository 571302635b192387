//! Blocking delays over the free-running counter.
//!
//! A delay computes a microsecond deadline from the counter value at entry
//! and busy-polls the timer until a reading reaches it. The deadline
//! saturates instead of wrapping: a wrapped deadline would lie in the past
//! and end the delay immediately, strictly worse than an over-long wait.

use crate::timer::Timer;
use vstd::prelude::*;

verus! {

/// Counter value `advance_micros` microseconds past `start`, saturating at
/// the top of the 64-bit range.
pub open spec fn saturated_at(start: u64, advance_micros: int) -> u64 {
    if start + advance_micros <= u64::MAX {
        (start + advance_micros) as u64
    } else {
        u64::MAX
    }
}

/// Deadline for a delay of `duration_ms` milliseconds starting at counter
/// value `start`, in microseconds, saturating at the top of the 64-bit range.
pub open spec fn deadline_spec(start: u64, duration_ms: u32) -> u64 {
    saturated_at(start, (duration_ms as int) * 1000)
}

/// Law: saturating advances compose. Advancing by `first` and then by
/// `second` microseconds lands exactly where one advance by their sum does.
pub proof fn lemma_saturated_at_chain(start: u64, first: int, second: int)
    requires
        0 <= first,
        0 <= second,
    ensures
        saturated_at(saturated_at(start, first), second) == saturated_at(start, first + second),
{
}

/// Law: a saturating advance is monotone in its starting value.
pub proof fn lemma_saturated_at_monotone(lower: u64, upper: u64, advance_micros: int)
    requires
        lower <= upper,
        0 <= advance_micros,
    ensures
        saturated_at(lower, advance_micros) <= saturated_at(upper, advance_micros),
{
}

/// Compute the saturating deadline for a delay beginning at `start`.
pub fn deadline_after(start: u64, duration_ms: u32) -> (deadline: u64)
    ensures
        deadline == deadline_spec(start, duration_ms),
{
    let micros: u64 = (duration_ms as u64) * 1000;
    if start <= u64::MAX - micros {
        start + micros
    } else {
        u64::MAX
    }
}

/// The trace still to come reaches `deadline`: by monotonicity it is enough
/// that the last sample does.
pub open spec fn reaches(timer: Timer, deadline: u64) -> bool {
    timer.counter_at(timer.sample_count() - 1) >= deadline
}

/// Block until the counter has advanced `duration_ms` milliseconds past its
/// value at entry, by polling the timer until a reading is at or past the
/// saturating deadline.
///
/// The caller supplies a trace whose samples reach the deadline, mirroring
/// the hardware counter's free running; with a counter that stopped short of
/// the deadline the busy-wait would never return. On return the reading under
/// the cursor has reached the deadline, and no reading strictly between the
/// entry sample and the cursor's predecessor did, so the delay cannot have
/// ended early.
pub fn delay_ms(timer: &mut Timer, duration_ms: u32)
    requires
        old(timer).wf(),
        reaches(*old(timer), deadline_spec(old(timer).current(), duration_ms)),
    ensures
        final(timer).wf(),
        final(timer).lo() == old(timer).lo(),
        final(timer).hi() == old(timer).hi(),
        old(timer).cursor() <= final(timer).cursor(),
        ({
            let deadline = deadline_spec(old(timer).current(), duration_ms);
            &&& final(timer).current() >= deadline
            &&& forall|k: int|
                old(timer).cursor() < k < final(timer).cursor() - 1
                    ==> #[trigger] final(timer).counter_at(k) < deadline
        }),
{
    let start = timer.now();
    let deadline = deadline_after(start, duration_ms);
    let ghost entry = old(timer).cursor();
    loop
        invariant_except_break
            forall|k: int|
                entry < k < timer.cursor() ==> #[trigger] timer.counter_at(k) < deadline,
        invariant
            timer.wf(),
            timer.lo() == old(timer).lo(),
            timer.hi() == old(timer).hi(),
            entry <= timer.cursor(),
            entry == old(timer).cursor(),
            deadline == deadline_spec(old(timer).current(), duration_ms),
            reaches(*timer, deadline),
        ensures
            timer.wf(),
            timer.lo() == old(timer).lo(),
            timer.hi() == old(timer).hi(),
            entry <= timer.cursor(),
            timer.current() >= deadline,
            forall|k: int|
                entry < k < timer.cursor() - 1 ==> #[trigger] timer.counter_at(k) < deadline,
        decreases timer.sample_count() - timer.cursor(),
    {
        let ghost pre = *timer;
        let reading = timer.now();
        if reading >= deadline {
            proof {
                if timer.cursor() == pre.cursor() + 1 {
                    assert(timer.counter_at(pre.cursor()) <= timer.counter_at(pre.cursor() + 1));
                }
                assert forall|k: int|
                    entry < k < timer.cursor() - 1 implies #[trigger] timer.counter_at(k)
                    < deadline by {
                    assert(pre.counter_at(k) < deadline);
                }
            }
            break ;
        }
        proof {
            if pre.cursor() == timer.sample_count() - 1 {
                assert(timer.counter_at(pre.cursor()) >= deadline);
            }
            assert forall|k: int|
                entry < k < timer.cursor() implies #[trigger] timer.counter_at(k) < deadline by {
                if k < pre.cursor() {
                    assert(pre.counter_at(k) < deadline);
                } else {
                    assert(timer.counter_at(k) == pre.counter_at(pre.cursor()));
                }
            }
        }
    }
}

} // verus!
