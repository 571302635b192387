//! The blink cycle: configure a pin as output, then alternately drive it
//! high and low with a delay after each edge.
//!
//! On hardware the cycle runs forever; here it takes an iteration count so
//! the same body can be exercised for a bounded number of periods. After any
//! whole number of cycles the pin is configured as an output and, once at
//! least one cycle has run, rests low.

use crate::delay::{
    deadline_spec, delay_ms, lemma_saturated_at_chain, lemma_saturated_at_monotone, reaches,
    saturated_at,
};
use crate::gpio::{
    bit_set_spec, fsel_bank_spec, fsel_field_spec, fsel_updated_spec, lemma_fsel_update_sets_field,
    lemma_level_index_in_range, lemma_level_mask_clears_bit, lemma_level_mask_sets_bit,
    level_index_spec, level_mask_spec, ConfigError, GpioController, PinFunction,
};
use crate::timer::Timer;
use vstd::prelude::*;

verus! {

/// Latching a pin's mask into one level word and releasing it from the other
/// settles after the first full cycle: a set followed by a clear leaves the
/// word pair exactly as a single clear of that pin would, however many times
/// the cycle repeats.
proof fn lemma_level_latch_absorb(word: u32, pin: u32)
    by (bit_vector)
    ensures
        (word | level_mask_spec(pin)) & !level_mask_spec(pin) == word & !level_mask_spec(pin),
        (word & !level_mask_spec(pin)) | level_mask_spec(pin) == word | level_mask_spec(pin),
        (word & !level_mask_spec(pin)) & !level_mask_spec(pin) == word & !level_mask_spec(pin),
        (word | level_mask_spec(pin)) | level_mask_spec(pin) == word | level_mask_spec(pin),
{
}

/// Configure `pin` as an output and run `cycles` high/low periods, waiting
/// `half_period_ms` milliseconds after each edge. An unimplemented pin is
/// rejected before anything is written. On success:
///
/// - the pin's bank register carries the output code in the pin's field with
///   every other bit as it was, and no other bank is touched;
/// - after at least one full cycle the last level command was a clear, so the
///   pin rests low: in the pin's level word pair its set bit is dropped and
///   its clear bit raised, with every other bit of both words as it was;
/// - the counter has advanced at least `2 * cycles * half_period_ms`
///   milliseconds past its value at entry (saturating at the counter's top),
///   so the two delays of every cycle were served in full.
///
/// The timer trace must end at the top of the counter range so that every
/// deadline the delays compute is reachable; this mirrors the hardware
/// counter, which keeps running for as long as the loop does.
#[verifier::rlimit(30)]
pub fn run_cycles(
    gpio: &mut GpioController,
    timer: &mut Timer,
    pin: u32,
    half_period_ms: u32,
    cycles: usize,
) -> (result: Result<(), ConfigError>)
    requires
        old(gpio).wf(),
        old(timer).wf(),
        old(timer).counter_at(old(timer).sample_count() - 1) == u64::MAX,
    ensures
        final(gpio).wf(),
        final(timer).wf(),
        final(timer).lo() == old(timer).lo(),
        final(timer).hi() == old(timer).hi(),
        old(timer).cursor() <= final(timer).cursor(),
        result is Ok <==> old(gpio).pin_in_range(pin),
        !old(gpio).pin_in_range(pin) ==> result == Err::<(), ConfigError>(ConfigError::InvalidPin)
            && *final(gpio) == *old(gpio) && *final(timer) == *old(timer),
        old(gpio).pin_in_range(pin) ==> {
            let bank = fsel_bank_spec(pin) as int;
            let idx = level_index_spec(pin) as int;
            let mask = level_mask_spec(pin);
            &&& final(gpio).fsel_regs() == old(gpio).fsel_regs().update(
                bank,
                fsel_updated_spec(old(gpio).fsel_regs()[bank], pin, 0b001),
            )
            &&& fsel_field_spec(final(gpio).fsel_regs()[bank], pin) == 0b001
            &&& cycles == 0 ==> final(gpio).set_regs() == old(gpio).set_regs() && final(
                gpio).clear_regs() == old(gpio).clear_regs()
            &&& 1 <= cycles ==> {
                &&& final(gpio).set_regs() == old(gpio).set_regs().update(
                    idx,
                    old(gpio).set_regs()[idx] & !mask,
                )
                &&& final(gpio).clear_regs() == old(gpio).clear_regs().update(
                    idx,
                    old(gpio).clear_regs()[idx] | mask,
                )
                &&& bit_set_spec(final(gpio).clear_regs()[idx], (pin % 32) as u32)
                &&& !bit_set_spec(final(gpio).set_regs()[idx], (pin % 32) as u32)
            }
            &&& final(timer).current() >= saturated_at(
                old(timer).current(),
                2 * (cycles as int) * ((half_period_ms as int) * 1000),
            )
        },
{
    let result = gpio.configure(pin, PinFunction::Output);
    if result.is_err() {
        return result;
    }
    let ghost bank = fsel_bank_spec(pin) as int;
    let ghost idx = level_index_spec(pin) as int;
    let ghost mask = level_mask_spec(pin);
    let ghost configured = gpio.fsel_regs();
    let ghost half_micros = (half_period_ms as int) * 1000;
    proof {
        lemma_fsel_update_sets_field(old(gpio).fsel_regs()[bank], pin, 0b001);
        lemma_level_index_in_range(pin, gpio.pin_count());
        assert(2 * (0 as int) * half_micros == 0) by (nonlinear_arith);
    }
    let mut done: usize = 0;
    while done < cycles
        invariant
            gpio.wf(),
            gpio.pin_in_range(pin),
            gpio.fsel_regs() == configured,
            bank == fsel_bank_spec(pin) as int,
            idx == level_index_spec(pin) as int,
            mask == level_mask_spec(pin),
            half_micros == (half_period_ms as int) * 1000,
            idx < gpio.set_regs().len(),
            idx < gpio.clear_regs().len(),
            gpio.set_regs().len() == old(gpio).set_regs().len(),
            gpio.clear_regs().len() == old(gpio).clear_regs().len(),
            done == 0 ==> gpio.set_regs() == old(gpio).set_regs() && gpio.clear_regs() == old(
                gpio,
            ).clear_regs(),
            1 <= done ==> gpio.set_regs() == old(gpio).set_regs().update(
                idx,
                old(gpio).set_regs()[idx] & !mask,
            ) && gpio.clear_regs() == old(gpio).clear_regs().update(
                idx,
                old(gpio).clear_regs()[idx] | mask,
            ),
            timer.wf(),
            timer.lo() == old(timer).lo(),
            timer.hi() == old(timer).hi(),
            old(timer).cursor() <= timer.cursor(),
            timer.counter_at(timer.sample_count() - 1) == u64::MAX,
            timer.current() >= saturated_at(old(timer).current(), 2 * (done as int) * half_micros),
            done <= cycles,
        decreases cycles - done,
    {
        let ghost at_entry = timer.current();
        let ghost set_before = gpio.set_regs();
        let ghost clear_before = gpio.clear_regs();
        gpio.set(pin);
        delay_ms(timer, half_period_ms);
        let ghost at_mid = timer.current();
        gpio.clear(pin);
        delay_ms(timer, half_period_ms);
        proof {
            // The level word pair settles to "last command was a clear".
            lemma_level_latch_absorb(set_before[idx], pin);
            lemma_level_latch_absorb(clear_before[idx], pin);
            lemma_level_latch_absorb(old(gpio).set_regs()[idx], pin);
            lemma_level_latch_absorb(old(gpio).clear_regs()[idx], pin);
            assert(gpio.set_regs() =~= set_before.update(idx, set_before[idx] & !mask));
            assert(gpio.clear_regs() =~= clear_before.update(idx, clear_before[idx] | mask));
            if 1 <= done {
                assert(set_before[idx] == old(gpio).set_regs()[idx] & !mask);
                assert(clear_before[idx] == old(gpio).clear_regs()[idx] | mask);
            }
            assert(gpio.set_regs() =~= old(gpio).set_regs().update(
                idx,
                old(gpio).set_regs()[idx] & !mask,
            ));
            assert(gpio.clear_regs() =~= old(gpio).clear_regs().update(
                idx,
                old(gpio).clear_regs()[idx] | mask,
            ));
            // Each delay pushed the counter one saturating half period on.
            assert(0 <= 2 * (done as int) * half_micros && 2 * (done as int) * half_micros + 2
                * half_micros == 2 * ((done as int) + 1) * half_micros) by (nonlinear_arith)
                requires
                    0 <= done,
                    0 <= half_micros,
            ;
            lemma_saturated_at_monotone(saturated_at(at_entry, half_micros), at_mid, half_micros);
            lemma_saturated_at_chain(at_entry, half_micros, half_micros);
            lemma_saturated_at_monotone(
                saturated_at(old(timer).current(), 2 * (done as int) * half_micros),
                at_entry,
                2 * half_micros,
            );
            lemma_saturated_at_chain(
                old(timer).current(),
                2 * (done as int) * half_micros,
                2 * half_micros,
            );
        }
        done = done + 1;
    }
    proof {
        if 1 <= cycles {
            lemma_level_mask_sets_bit(old(gpio).clear_regs()[idx], pin, (pin % 32) as u32);
            lemma_level_mask_clears_bit(old(gpio).set_regs()[idx], pin, (pin % 32) as u32);
        }
    }
    result
}

} // verus!
