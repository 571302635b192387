//! GPIO controller: pin-to-register translation and register updates.
//!
//! Each function-select bank is one 32-bit register covering ten pins, three
//! bits per pin. Pin levels are driven through write-1-to-set and
//! write-1-to-clear registers, one per 32 pins. The controller holds the
//! register values directly, so every update is verified bit for bit.

use vstd::prelude::*;

verus! {

/// Role a pin can take, encoded as a 3-bit function-select field.
/// Only the input and output codes are exercised by this core; the remaining
/// codes are reserved for alternate functions.
#[derive(Clone, Copy, PartialEq, Eq, Structural, Debug)]
pub enum PinFunction {
    Input,
    Output,
}

/// The single error this layer can raise: the pin does not resolve to an
/// implemented function-select bank or set/clear register pair.
#[derive(Clone, Copy, PartialEq, Eq, Structural, Debug)]
pub enum ConfigError {
    InvalidPin,
}

/// 3-bit code written into a function-select field for `function`.
pub open spec fn function_code_spec(function: PinFunction) -> u32 {
    match function {
        PinFunction::Input => 0b000,
        PinFunction::Output => 0b001,
    }
}

/// Executable counterpart of [`function_code_spec`].
pub fn function_code(function: PinFunction) -> (code: u32)
    ensures
        code == function_code_spec(function),
        code <= 0b111,
{
    match function {
        PinFunction::Input => 0b000,
        PinFunction::Output => 0b001,
    }
}

/// Index of the function-select bank that holds `pin`'s field.
pub open spec fn fsel_bank_spec(pin: u32) -> u32 {
    pin / 10
}

/// Bit offset of `pin`'s 3-bit field inside its bank register.
pub open spec fn fsel_shift_spec(pin: u32) -> u32 {
    ((pin % 10) * 3) as u32
}

/// 3-bit mask covering `pin`'s field inside its bank register.
pub open spec fn fsel_mask_spec(pin: u32) -> u32 {
    0b111u32 << fsel_shift_spec(pin)
}

/// `pin`'s 3-bit function-select field read out of a bank register value.
pub open spec fn fsel_field_spec(regval: u32, pin: u32) -> u32 {
    (regval >> fsel_shift_spec(pin)) & 0b111
}

/// Bank register value after the read-modify-write that gives `pin` the
/// function code `code`: the old 3-bit field is cleared, the new code ORed in,
/// every other bit kept.
pub open spec fn fsel_updated_spec(regval: u32, pin: u32, code: u32) -> u32 {
    (regval & !fsel_mask_spec(pin)) | (code << fsel_shift_spec(pin))
}

/// Index of the set/clear register that drives `pin`.
pub open spec fn level_index_spec(pin: u32) -> u32 {
    pin / 32
}

/// Single-bit mask written to a set or clear register for `pin`.
pub open spec fn level_mask_spec(pin: u32) -> u32 {
    1u32 << ((pin % 32) as u32)
}

/// Whether bit `index` of `regval` is 1.
pub open spec fn bit_set_spec(regval: u32, index: u32) -> bool {
    (regval >> index) & 1 == 1
}

/// Executable counterpart of [`fsel_bank_spec`].
pub fn fsel_bank(pin: u32) -> (bank: u32)
    ensures
        bank == fsel_bank_spec(pin),
{
    pin / 10
}

/// Executable counterpart of [`fsel_shift_spec`].
pub fn fsel_shift(pin: u32) -> (shift: u32)
    ensures
        shift == fsel_shift_spec(pin),
        shift <= 27,
{
    (pin % 10) * 3
}

/// Compute the read-modify-write result for one function-select field.
pub fn fsel_apply(regval: u32, pin: u32, code: u32) -> (updated: u32)
    requires
        code <= 0b111,
    ensures
        updated == fsel_updated_spec(regval, pin, code),
{
    let shift = fsel_shift(pin);
    (regval & !(0b111u32 << shift)) | (code << shift)
}

/// Executable counterpart of [`level_index_spec`].
pub fn level_index(pin: u32) -> (idx: u32)
    ensures
        idx == level_index_spec(pin),
{
    pin / 32
}

/// Executable counterpart of [`level_mask_spec`].
pub fn level_mask(pin: u32) -> (mask: u32)
    ensures
        mask == level_mask_spec(pin),
{
    1u32 << (pin % 32)
}

/// A pin resolves to an implemented level register: its set/clear index is
/// below the count that covers `pins` pins.
pub proof fn lemma_level_index_in_range(pin: u32, pins: int)
    requires
        1 <= pins,
        (pin as int) < pins,
    ensures
        (pin as int) / 32 < (pins + 31) / 32,
{
    vstd::arithmetic::div_mod::lemma_fundamental_div_mod(pins + 31, 32);
    vstd::arithmetic::div_mod::lemma_fundamental_div_mod(pin as int, 32);
    vstd::arithmetic::div_mod::lemma_mod_bound(pins + 31, 32);
    vstd::arithmetic::div_mod::lemma_mod_bound(pin as int, 32);
}

/// The GPIO register file together with the pin arithmetic that addresses it.
///
/// `fsel` holds one function-select bank per ten pins. `set_bits` and
/// `clear_bits` mirror the effect of the write-1-to-set and write-1-to-clear
/// level registers: a bit in `set_bits` records that the most recent level
/// command for that pin drove it high, a bit in `clear_bits` that it drove it
/// low. On hardware the set/clear ports do not read back pin state; the model
/// keeps the latched effect observable so callers and tests can check it.
pub struct GpioController {
    fsel: Vec<u32>,
    set_bits: Vec<u32>,
    clear_bits: Vec<u32>,
}

impl GpioController {
    /// Values of the function-select bank registers.
    pub closed spec fn fsel_regs(self) -> Seq<u32> {
        self.fsel@
    }

    /// Latched effect of the set registers, one word per 32 pins.
    pub closed spec fn set_regs(self) -> Seq<u32> {
        self.set_bits@
    }

    /// Latched effect of the clear registers, one word per 32 pins.
    pub closed spec fn clear_regs(self) -> Seq<u32> {
        self.clear_bits@
    }

    /// Number of implemented function-select banks.
    pub open spec fn banks(self) -> int {
        self.fsel_regs().len() as int
    }

    /// Number of implemented pins: ten per bank.
    pub open spec fn pin_count(self) -> int {
        self.banks() * 10
    }

    /// Number of set/clear registers needed to cover every implemented pin.
    pub open spec fn level_reg_count(self) -> int {
        (self.pin_count() + 31) / 32
    }

    /// The register file is well formed: at least one bank, pin numbers fit
    /// in a `u32`, and the level registers cover every pin.
    pub open spec fn wf(self) -> bool {
        &&& 1 <= self.banks()
        &&& self.pin_count() <= u32::MAX
        &&& self.set_regs().len() == self.level_reg_count()
        &&& self.clear_regs().len() == self.level_reg_count()
    }

    /// `pin` resolves to an implemented bank.
    pub open spec fn pin_in_range(self, pin: u32) -> bool {
        (pin as int) < self.pin_count()
    }

    /// Build a controller with `banks` function-select banks (ten pins each)
    /// and every register cleared, as the hardware presents them after reset.
    pub fn new(banks: usize) -> (ctrl: GpioController)
        requires
            1 <= banks,
            banks * 10 + 31 <= u32::MAX,
        ensures
            ctrl.wf(),
            ctrl.banks() == banks,
            forall|i: int| 0 <= i < ctrl.banks() ==> ctrl.fsel_regs()[i] == 0,
            forall|i: int|
                0 <= i < ctrl.level_reg_count() ==> ctrl.set_regs()[i] == 0
                    && ctrl.clear_regs()[i] == 0,
    {
        let level_regs = (banks * 10 + 31) / 32;
        GpioController {
            fsel: zero_regs(banks),
            set_bits: zero_regs(level_regs),
            clear_bits: zero_regs(level_regs),
        }
    }

    /// Select the function of one pin by a read-modify-write of its bank
    /// register: the 3-bit field at offset `(pin % 10) * 3` is replaced by the
    /// function's code while every other bit of the bank is preserved. A pin
    /// with no implemented bank is rejected and nothing is written.
    pub fn configure(&mut self, pin: u32, function: PinFunction) -> (result: Result<
        (),
        ConfigError,
    >)
        requires
            old(self).wf(),
        ensures
            final(self).wf(),
            result is Ok <==> old(self).pin_in_range(pin),
            !old(self).pin_in_range(pin) ==> result == Err::<(), ConfigError>(
                ConfigError::InvalidPin,
            ) && *final(self) == *old(self),
            old(self).pin_in_range(pin) ==> {
                let bank = fsel_bank_spec(pin) as int;
                &&& final(self).fsel_regs() == old(self).fsel_regs().update(
                    bank,
                    fsel_updated_spec(
                        old(self).fsel_regs()[bank],
                        pin,
                        function_code_spec(function),
                    ),
                )
                &&& final(self).set_regs() == old(self).set_regs()
                &&& final(self).clear_regs() == old(self).clear_regs()
            },
    {
        let bank = fsel_bank(pin);
        if (bank as usize) < self.fsel.len() {
            let current = self.fsel[bank as usize];
            let updated = fsel_apply(current, pin, function_code(function));
            self.fsel.set(bank as usize, updated);
            Ok(())
        } else {
            Err(ConfigError::InvalidPin)
        }
    }

    /// Configure `pin` as an output line.
    pub fn set_output(&mut self, pin: u32) -> (result: Result<(), ConfigError>)
        requires
            old(self).wf(),
        ensures
            final(self).wf(),
            result is Ok <==> old(self).pin_in_range(pin),
            !old(self).pin_in_range(pin) ==> result == Err::<(), ConfigError>(
                ConfigError::InvalidPin,
            ) && *final(self) == *old(self),
            old(self).pin_in_range(pin) ==> {
                let bank = fsel_bank_spec(pin) as int;
                &&& final(self).fsel_regs() == old(self).fsel_regs().update(
                    bank,
                    fsel_updated_spec(old(self).fsel_regs()[bank], pin, 0b001),
                )
                &&& final(self).set_regs() == old(self).set_regs()
                &&& final(self).clear_regs() == old(self).clear_regs()
            },
    {
        self.configure(pin, PinFunction::Output)
    }

    /// Drive `pin` high by writing its single-bit mask to the set register
    /// `pin / 32`. The hardware latches the bit atomically, so no register is
    /// read first; the model records the latch by raising the bit in the set
    /// word and dropping it in the clear word.
    pub fn set(&mut self, pin: u32)
        requires
            old(self).wf(),
            old(self).pin_in_range(pin),
        ensures
            final(self).wf(),
            final(self).fsel_regs() == old(self).fsel_regs(),
            ({
                let idx = level_index_spec(pin) as int;
                let mask = level_mask_spec(pin);
                &&& final(self).set_regs() == old(self).set_regs().update(
                    idx,
                    old(self).set_regs()[idx] | mask,
                )
                &&& final(self).clear_regs() == old(self).clear_regs().update(
                    idx,
                    old(self).clear_regs()[idx] & !mask,
                )
            }),
    {
        proof {
            lemma_level_index_in_range(pin, self.pin_count());
        }
        let idx = level_index(pin) as usize;
        let mask = level_mask(pin);
        let latched = self.set_bits[idx] | mask;
        self.set_bits.set(idx, latched);
        let released = self.clear_bits[idx] & !mask;
        self.clear_bits.set(idx, released);
    }

    /// Drive `pin` low by writing its single-bit mask to the clear register
    /// `pin / 32`; the mirror image of [`GpioController::set`].
    pub fn clear(&mut self, pin: u32)
        requires
            old(self).wf(),
            old(self).pin_in_range(pin),
        ensures
            final(self).wf(),
            final(self).fsel_regs() == old(self).fsel_regs(),
            ({
                let idx = level_index_spec(pin) as int;
                let mask = level_mask_spec(pin);
                &&& final(self).clear_regs() == old(self).clear_regs().update(
                    idx,
                    old(self).clear_regs()[idx] | mask,
                )
                &&& final(self).set_regs() == old(self).set_regs().update(
                    idx,
                    old(self).set_regs()[idx] & !mask,
                )
            }),
    {
        proof {
            lemma_level_index_in_range(pin, self.pin_count());
        }
        let idx = level_index(pin) as usize;
        let mask = level_mask(pin);
        let latched = self.clear_bits[idx] | mask;
        self.clear_bits.set(idx, latched);
        let released = self.set_bits[idx] & !mask;
        self.set_bits.set(idx, released);
    }

    /// Number of implemented banks.
    pub fn bank_count(&self) -> (n: usize)
        ensures
            n == self.banks(),
    {
        self.fsel.len()
    }

    /// Read back one function-select bank register.
    pub fn read_fsel(&self, bank: usize) -> (v: u32)
        requires
            (bank as int) < self.banks(),
        ensures
            v == self.fsel_regs()[bank as int],
    {
        self.fsel[bank]
    }

    /// Read back the latched effect of one set register.
    pub fn read_set(&self, idx: usize) -> (v: u32)
        requires
            (idx as int) < self.set_regs().len(),
        ensures
            v == self.set_regs()[idx as int],
    {
        self.set_bits[idx]
    }

    /// Read back the latched effect of one clear register.
    pub fn read_clear(&self, idx: usize) -> (v: u32)
        requires
            (idx as int) < self.clear_regs().len(),
        ensures
            v == self.clear_regs()[idx as int],
    {
        self.clear_bits[idx]
    }

    /// Read back the 3-bit function-select field of one pin.
    pub fn function_field(&self, pin: u32) -> (field: u32)
        requires
            self.wf(),
            self.pin_in_range(pin),
        ensures
            field == fsel_field_spec(self.fsel_regs()[fsel_bank_spec(pin) as int], pin),
    {
        let bank = fsel_bank(pin);
        let shift = fsel_shift(pin);
        (self.fsel[bank as usize] >> shift) & 0b111
    }
}

/// Law: configuring a pin writes exactly its 3-bit field. After the
/// read-modify-write, reading the field back yields the code that was
/// written, for every prior register value.
pub proof fn lemma_fsel_update_sets_field(regval: u32, pin: u32, code: u32)
    by (bit_vector)
    requires
        code <= 0b111,
    ensures
        fsel_field_spec(fsel_updated_spec(regval, pin, code), pin) == code,
{
}

/// Law: configuring a pin leaves every bit outside its 3-bit field exactly as
/// it was, so the nine neighbouring fields of the bank are untouched.
pub proof fn lemma_fsel_update_preserves_other_bits(regval: u32, pin: u32, code: u32, index: u32)
    by (bit_vector)
    requires
        code <= 0b111,
        index < 32,
        index < fsel_shift_spec(pin) || fsel_shift_spec(pin) + 3 <= index,
    ensures
        bit_set_spec(fsel_updated_spec(regval, pin, code), index) == bit_set_spec(regval, index),
{
}

/// Law: configuring pin `p` does not move the field of any pin `q` in a
/// different slot of the same bank.
pub proof fn lemma_fsel_update_preserves_other_fields(regval: u32, p: u32, q: u32, code: u32)
    by (bit_vector)
    requires
        code <= 0b111,
        p % 10 != q % 10,
    ensures
        fsel_field_spec(fsel_updated_spec(regval, p, code), q) == fsel_field_spec(regval, q),
{
}

/// Law: two configurations of the same pin compose to the second one alone,
/// so `Output` then `Input` restores the field to the input code with the
/// rest of the bank as it stood before either call.
pub proof fn lemma_fsel_update_overwrite(regval: u32, pin: u32, first: u32, second: u32)
    by (bit_vector)
    requires
        first <= 0b111,
        second <= 0b111,
    ensures
        fsel_updated_spec(fsel_updated_spec(regval, pin, first), pin, second) == fsel_updated_spec(
            regval,
            pin,
            second,
        ),
{
}

/// Law: ORing a pin's level mask into a register word raises exactly bit
/// `pin % 32` and alters no other bit.
pub proof fn lemma_level_mask_sets_bit(regval: u32, pin: u32, index: u32)
    by (bit_vector)
    requires
        index < 32,
    ensures
        bit_set_spec(regval | level_mask_spec(pin), (pin % 32) as u32),
        index != pin % 32 ==> bit_set_spec(regval | level_mask_spec(pin), index) == bit_set_spec(
            regval,
            index,
        ),
{
}

/// Law: masking a pin's level mask out of a register word drops exactly bit
/// `pin % 32` and alters no other bit.
pub proof fn lemma_level_mask_clears_bit(regval: u32, pin: u32, index: u32)
    by (bit_vector)
    requires
        index < 32,
    ensures
        !bit_set_spec(regval & !level_mask_spec(pin), (pin % 32) as u32),
        index != pin % 32 ==> bit_set_spec(regval & !level_mask_spec(pin), index) == bit_set_spec(
            regval,
            index,
        ),
{
}

/// A vector of `count` cleared registers.
fn zero_regs(count: usize) -> (regs: Vec<u32>)
    ensures
        regs@.len() == count,
        forall|i: int| 0 <= i < count ==> regs@[i] == 0,
{
    let mut regs: Vec<u32> = Vec::new();
    let mut filled: usize = 0;
    while filled < count
        invariant
            filled <= count,
            regs@.len() == filled,
            forall|i: int| 0 <= i < filled ==> regs@[i] == 0,
        decreases count - filled,
    {
        regs.push(0);
        filled = filled + 1;
    }
    regs
}

} // verus!
