use gpio_timer::gpio::{ConfigError, GpioController, PinFunction};

/// Configuring a pin as output writes exactly the 3-bit code `001` at offset
/// `(pin % 10) * 3` of its bank and leaves the other fields of the bank alone.
#[test]
fn configure_output_sets_exact_field() {
    let mut gpio = GpioController::new(3);
    assert_eq!(gpio.configure(5, PinFunction::Output), Ok(()));
    assert_eq!(gpio.read_fsel(0), 0b001 << 15);
    assert_eq!(gpio.function_field(5), 0b001);

    // A second pin in the same bank must not disturb the first.
    assert_eq!(gpio.configure(7, PinFunction::Output), Ok(()));
    assert_eq!(gpio.function_field(5), 0b001);
    assert_eq!(gpio.function_field(7), 0b001);
    assert_eq!(gpio.read_fsel(0), (0b001 << 15) | (0b001 << 21));
}

/// Output then input restores the field to `000` with the neighbours intact.
#[test]
fn configure_roundtrip_restores_input() {
    let mut gpio = GpioController::new(3);
    assert_eq!(gpio.configure(5, PinFunction::Output), Ok(()));
    assert_eq!(gpio.configure(7, PinFunction::Output), Ok(()));
    assert_eq!(gpio.configure(5, PinFunction::Input), Ok(()));
    assert_eq!(gpio.function_field(5), 0b000);
    assert_eq!(gpio.function_field(7), 0b001);
    assert_eq!(gpio.read_fsel(0), 0b001 << 21);
}

/// Configuration picks the bank by `pin / 10`.
#[test]
fn configure_selects_bank_by_tens() {
    let mut gpio = GpioController::new(3);
    assert_eq!(gpio.configure(21, PinFunction::Output), Ok(()));
    assert_eq!(gpio.read_fsel(0), 0);
    assert_eq!(gpio.read_fsel(1), 0);
    assert_eq!(gpio.read_fsel(2), 0b001 << 3);
}

/// An out-of-range pin is rejected with `InvalidPin` and nothing is written.
#[test]
fn configure_rejects_out_of_range_pin() {
    let mut gpio = GpioController::new(3);
    assert_eq!(
        gpio.configure(100, PinFunction::Output),
        Err(ConfigError::InvalidPin)
    );
    assert_eq!(
        gpio.configure(30, PinFunction::Output),
        Err(ConfigError::InvalidPin)
    );
    for bank in 0..3 {
        assert_eq!(gpio.read_fsel(bank), 0);
    }
    assert_eq!(gpio.read_set(0), 0);
    assert_eq!(gpio.read_clear(0), 0);

    // The last implemented pin is still accepted.
    assert_eq!(gpio.configure(29, PinFunction::Output), Ok(()));
    assert_eq!(gpio.function_field(29), 0b001);
}

/// `set_output` is configuration with the output function.
#[test]
fn set_output_matches_configure() {
    let mut gpio = GpioController::new(3);
    assert_eq!(gpio.set_output(21), Ok(()));
    assert_eq!(gpio.function_field(21), 0b001);
    assert_eq!(gpio.set_output(100), Err(ConfigError::InvalidPin));
}

/// A fresh controller presents every register cleared.
#[test]
fn new_controller_is_cleared() {
    let gpio = GpioController::new(3);
    assert_eq!(gpio.bank_count(), 3);
    for bank in 0..3 {
        assert_eq!(gpio.read_fsel(bank), 0);
    }
    assert_eq!(gpio.read_set(0), 0);
    assert_eq!(gpio.read_clear(0), 0);
}
