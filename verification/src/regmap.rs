//! Physical layout of the GPIO and system-timer registers.
//!
//! The addresses are platform constants; the defaults below are the
//! peripheral bus addresses of a BCM2837-class SoC, where the function-select
//! bank array starts at the GPIO base, the set and clear registers sit at
//! fixed offsets behind it, and the free-running counter exposes its low and
//! high words as two consecutive 32-bit cells. The map is an injected value,
//! so a variant SoC only needs different construction, not different code.
//! Every cell is 32 bits wide and must be accessed volatilely; the verified
//! core never dereferences these addresses itself, it only computes them.

use vstd::prelude::*;

verus! {

/// GPIO register block base on the peripheral bus.
pub const GPIO_BASE: u64 = 0x3F20_0000;

/// Offset of function-select bank 0 inside the GPIO block.
pub const GPIO_FSEL_OFFSET: u64 = 0x00;

/// Offset of set register 0 inside the GPIO block.
pub const GPIO_SET_OFFSET: u64 = 0x1C;

/// Offset of clear register 0 inside the GPIO block.
pub const GPIO_CLEAR_OFFSET: u64 = 0x28;

/// System-timer register block base on the peripheral bus.
pub const TIMER_BASE: u64 = 0x3F00_3000;

/// Offset of the counter's low word inside the timer block.
pub const TIMER_COUNTER_LO_OFFSET: u64 = 0x04;

/// Offset of the counter's high word inside the timer block. Both words
/// belong to the same free-running counter; reading any other cell for the
/// high half would break the counter's monotonicity.
pub const TIMER_COUNTER_HI_OFFSET: u64 = 0x08;

/// Fixed physical addresses of the registers the core addresses, injected at
/// construction so the arithmetic over them is portable across SoC variants.
pub struct RegisterMap {
    /// Address of function-select bank 0; bank `b` lives 4·`b` bytes behind it.
    pub fsel_base: u64,
    /// Address of set register 0; register `r` lives 4·`r` bytes behind it.
    pub set_base: u64,
    /// Address of clear register 0; register `r` lives 4·`r` bytes behind it.
    pub clear_base: u64,
    /// Address of the counter's low word.
    pub counter_lo: u64,
    /// Address of the counter's high word.
    pub counter_hi: u64,
}

impl RegisterMap {
    /// Register addresses of a BCM2837-class SoC.
    pub fn bcm2837() -> (map: RegisterMap)
        ensures
            map.fsel_base == GPIO_BASE + GPIO_FSEL_OFFSET,
            map.set_base == GPIO_BASE + GPIO_SET_OFFSET,
            map.clear_base == GPIO_BASE + GPIO_CLEAR_OFFSET,
            map.counter_lo == TIMER_BASE + TIMER_COUNTER_LO_OFFSET,
            map.counter_hi == TIMER_BASE + TIMER_COUNTER_HI_OFFSET,
    {
        RegisterMap {
            fsel_base: GPIO_BASE + GPIO_FSEL_OFFSET,
            set_base: GPIO_BASE + GPIO_SET_OFFSET,
            clear_base: GPIO_BASE + GPIO_CLEAR_OFFSET,
            counter_lo: TIMER_BASE + TIMER_COUNTER_LO_OFFSET,
            counter_hi: TIMER_BASE + TIMER_COUNTER_HI_OFFSET,
        }
    }

    /// Address of function-select bank `bank`.
    pub fn fsel_addr(&self, bank: u32) -> (addr: u64)
        requires
            self.fsel_base + 4 * (bank as int) <= u64::MAX,
        ensures
            addr == self.fsel_base + 4 * (bank as int),
    {
        self.fsel_base + 4 * (bank as u64)
    }

    /// Address of set register `idx`.
    pub fn set_addr(&self, idx: u32) -> (addr: u64)
        requires
            self.set_base + 4 * (idx as int) <= u64::MAX,
        ensures
            addr == self.set_base + 4 * (idx as int),
    {
        self.set_base + 4 * (idx as u64)
    }

    /// Address of clear register `idx`.
    pub fn clear_addr(&self, idx: u32) -> (addr: u64)
        requires
            self.clear_base + 4 * (idx as int) <= u64::MAX,
        ensures
            addr == self.clear_base + 4 * (idx as int),
    {
        self.clear_base + 4 * (idx as u64)
    }
}

} // verus!
