use gpio_timer::delay::delay_ms;
use gpio_timer::driver::run_cycles;
use gpio_timer::gpio::{ConfigError, GpioController, PinFunction};
use gpio_timer::timer::Timer;

/// End to end: configure pin 21 as output, drive it high, check the latched
/// set/clear state, drive it low, check the reverse, then run a delay
/// against a pre-loaded counter and check it returns on the first reading at
/// or past the deadline.
#[test]
fn blink_pin_21_end_to_end() {
    let mut gpio = GpioController::new(3);
    assert_eq!(gpio.configure(21, PinFunction::Output), Ok(()));

    gpio.set(21);
    assert_eq!(gpio.read_set(0) & (1 << 21), 1 << 21);
    assert_eq!(gpio.read_clear(0) & (1 << 21), 0);

    gpio.clear(21);
    assert_eq!(gpio.read_set(0) & (1 << 21), 0);
    assert_eq!(gpio.read_clear(0) & (1 << 21), 1 << 21);

    let mut timer = Timer::from_values(vec![0, 500, 1000, 1500]).unwrap();
    delay_ms(&mut timer, 1);
    // Deadline 1000: the 500 poll kept waiting, the 1000 poll returned.
    assert_eq!(timer.position(), 3);
    assert_eq!(timer.now(), 1500);
}

/// The blink cycle configures once, then alternates set and clear with a
/// delay after each edge; after whole cycles the pin rests low.
#[test]
fn run_cycles_leaves_pin_low() {
    let mut gpio = GpioController::new(3);
    let mut timer = Timer::from_values(vec![0, 5_000_000, 10_000_000, u64::MAX]).unwrap();
    assert_eq!(run_cycles(&mut gpio, &mut timer, 21, 5000, 1), Ok(()));
    assert_eq!(gpio.function_field(21), 0b001);
    assert_eq!(gpio.read_set(0) & (1 << 21), 0);
    assert_eq!(gpio.read_clear(0) & (1 << 21), 1 << 21);
}

/// The blink cycle touches only its own pin's field and level bit and waits
/// both half periods of every cycle.
#[test]
fn run_cycles_preserves_other_pins_and_waits() {
    let mut gpio = GpioController::new(3);
    assert_eq!(gpio.configure(5, PinFunction::Output), Ok(()));
    gpio.set(3);
    let bank0 = gpio.read_fsel(0);
    let mut timer =
        Timer::from_values(vec![0, 4_999_999, 5_000_000, 9_999_999, 10_000_000, u64::MAX])
            .unwrap();
    assert_eq!(run_cycles(&mut gpio, &mut timer, 21, 5000, 1), Ok(()));
    // Pin 5's configuration and pin 3's latched level are untouched.
    assert_eq!(gpio.read_fsel(0), bank0);
    assert_eq!(gpio.read_set(0), 1 << 3);
    assert_eq!(gpio.read_clear(0), 1 << 21);
    // Both half periods were waited out: the 4,999,999 and 9,999,999 polls
    // kept waiting, so five samples were consumed.
    assert_eq!(timer.position(), 5);
}

/// With zero cycles the blink driver only configures the pin.
#[test]
fn run_cycles_zero_cycles_only_configures() {
    let mut gpio = GpioController::new(3);
    let mut timer = Timer::from_values(vec![0, u64::MAX]).unwrap();
    assert_eq!(run_cycles(&mut gpio, &mut timer, 21, 5000, 0), Ok(()));
    assert_eq!(gpio.function_field(21), 0b001);
    assert_eq!(gpio.read_set(0), 0);
    assert_eq!(gpio.read_clear(0), 0);
    assert_eq!(timer.position(), 0);
}

/// The blink cycle rejects a pin with no bank before writing anything.
#[test]
fn run_cycles_rejects_invalid_pin() {
    let mut gpio = GpioController::new(3);
    let mut timer = Timer::from_values(vec![0, u64::MAX]).unwrap();
    assert_eq!(
        run_cycles(&mut gpio, &mut timer, 100, 1, 1),
        Err(ConfigError::InvalidPin)
    );
    for bank in 0..3 {
        assert_eq!(gpio.read_fsel(bank), 0);
    }
    assert_eq!(timer.position(), 0);
}
