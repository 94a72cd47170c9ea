use cd74hc4067::channel::is_bit_set;
use cd74hc4067::{Cd74hc4067, DisabledState, Error, OutputPin, CD74HC4067};
use embedded_hal::digital::OutputPin as HalOutputPin;
use embedded_hal_mock::eh1::digital::{
    Mock as PinMock, State as PinState, Transaction as PinTransaction,
};
use embedded_hal_mock::eh1::MockError;
use std::io::ErrorKind;

/// A mocked hardware pin seen through the driver's output capability.
#[derive(Debug)]
struct MockPin(PinMock);

impl OutputPin for MockPin {
    type Error = MockError;

    fn set_low(&mut self) -> Result<(), MockError> {
        self.0.set_low()
    }

    fn set_high(&mut self) -> Result<(), MockError> {
        self.0.set_high()
    }
}

type Mux = Cd74hc4067<MockPin, MockPin, DisabledState>;

fn pin(expectations: &[PinTransaction]) -> MockPin {
    MockPin(PinMock::new(expectations))
}

fn low() -> PinTransaction {
    PinTransaction::set(PinState::Low)
}

fn high() -> PinTransaction {
    PinTransaction::set(PinState::High)
}

fn level(is_high: bool) -> PinTransaction {
    if is_high {
        high()
    } else {
        low()
    }
}

fn broken(t: PinTransaction) -> PinTransaction {
    t.with_error(MockError::Io(ErrorKind::NotConnected))
}

fn finish(pins: (MockPin, MockPin, MockPin, MockPin, MockPin)) {
    let (mut pin_0, mut pin_1, mut pin_2, mut pin_3, mut pin_enable) = pins;
    pin_enable.0.done();
    pin_0.0.done();
    pin_1.0.done();
    pin_2.0.done();
    pin_3.0.done();
}

fn built(
    pin_0: MockPin,
    pin_1: MockPin,
    pin_2: MockPin,
    pin_3: MockPin,
    pin_enable: MockPin,
) -> Mux {
    match Cd74hc4067::new(pin_0, pin_1, pin_2, pin_3, pin_enable) {
        Ok(mux) => mux,
        Err((e, pins)) => {
            finish(pins);
            panic!("construction failed: {:?}", e)
        }
    }
}

/// A handle built from pins that expect the construction writes and then
/// `extra_n` on select line `n`.
fn mux_then(extra: [&[PinTransaction]; 4]) -> Mux {
    let with_start = |rest: &[PinTransaction]| {
        let mut all = vec![low()];
        all.extend_from_slice(rest);
        pin(&all)
    };
    built(
        with_start(extra[0]),
        with_start(extra[1]),
        with_start(extra[2]),
        with_start(extra[3]),
        pin(&[high()]),
    )
}

fn select_ok(mux: &mut Mux, n: u8) {
    if let Err(e) = mux.set_channel_active(n) {
        panic!("selection failed: {:?}", e);
    }
}

#[test]
fn make_mux() {
    let pin_0 = pin(&[low()]);
    let pin_1 = pin(&[low()]);
    let pin_2 = pin(&[low()]);
    let pin_3 = pin(&[low()]);
    let pin_enable = pin(&[high()]);

    let mux = built(pin_0, pin_1, pin_2, pin_3, pin_enable);
    finish(mux.release());
}

#[test]
fn enable() {
    let pin_0 = pin(&[low()]);
    let pin_1 = pin(&[low()]);
    let pin_2 = pin(&[low()]);
    let pin_3 = pin(&[low()]);
    let pin_enable = pin(&[high(), low(), high()]);

    let mux = built(pin_0, pin_1, pin_2, pin_3, pin_enable);
    let enabled_mux = match mux.enable() {
        Ok(m) => m,
        Err(_) => panic!("enable failed"),
    };
    let mux = match enabled_mux.disable() {
        Ok(m) => m,
        Err(_) => panic!("disable failed"),
    };
    finish(mux.release());
}

#[test]
fn set_channel_9() {
    let mut mux = mux_then([&[high()], &[low()], &[low()], &[high()]]);
    select_ok(&mut mux, 9);
    finish(mux.release());
}

#[test]
fn set_channel_6() {
    let mut mux = mux_then([&[low()], &[high()], &[high()], &[low()]]);
    select_ok(&mut mux, 6);
    finish(mux.release());
}

#[test]
fn set_channel_10() {
    let mut mux = mux_then([&[low()], &[high()], &[low()], &[high()]]);
    select_ok(&mut mux, 10);
    finish(mux.release());
}

#[test]
fn every_channel_sets_its_bits() {
    for n in 0u8..16 {
        let bit = |b: u8| level((n >> b) & 1 == 1);
        let mut mux = mux_then([&[bit(0)], &[bit(1)], &[bit(2)], &[bit(3)]]);
        select_ok(&mut mux, n);
        finish(mux.release());
    }
}

#[test]
fn channel_15_and_0_are_the_extremes() {
    let mut mux = mux_then([&[high(), low()], &[high(), low()], &[high(), low()], &[high(), low()]]);
    select_ok(&mut mux, 15);
    select_ok(&mut mux, 0);
    finish(mux.release());
}

#[test]
fn selecting_twice_drives_the_same_levels_again() {
    let mut mux = mux_then([&[high(), high()], &[low(), low()], &[high(), high()], &[low(), low()]]);
    select_ok(&mut mux, 5);
    select_ok(&mut mux, 5);
    finish(mux.release());
}

#[test]
fn construction_stops_when_enable_write_fails() {
    let pin_0 = pin(&[]);
    let pin_1 = pin(&[]);
    let pin_2 = pin(&[]);
    let pin_3 = pin(&[]);
    let pin_enable = pin(&[broken(high())]);

    match Cd74hc4067::new(pin_0, pin_1, pin_2, pin_3, pin_enable) {
        Ok(mux) => {
            finish(mux.release());
            panic!("construction should fail");
        }
        Err((e, pins)) => {
            assert!(matches!(e, Error::EnablePinError(MockError::Io(ErrorKind::NotConnected))));
            finish(pins);
        }
    }
}

#[test]
fn construction_stops_at_failing_select_line() {
    let pin_0 = pin(&[low()]);
    let pin_1 = pin(&[low()]);
    let pin_2 = pin(&[broken(low())]);
    let pin_3 = pin(&[]);
    let pin_enable = pin(&[high()]);

    match Cd74hc4067::new(pin_0, pin_1, pin_2, pin_3, pin_enable) {
        Ok(mux) => {
            finish(mux.release());
            panic!("construction should fail");
        }
        Err((e, pins)) => {
            assert!(matches!(e, Error::SelectPinError(MockError::Io(ErrorKind::NotConnected))));
            finish(pins);
        }
    }
}

#[test]
fn failed_enable_returns_usable_disabled_handle() {
    let pin_0 = pin(&[low(), high()]);
    let pin_1 = pin(&[low(), high()]);
    let pin_2 = pin(&[low(), low()]);
    let pin_3 = pin(&[low(), low()]);
    let pin_enable = pin(&[high(), broken(low()), low(), high()]);

    let mux = built(pin_0, pin_1, pin_2, pin_3, pin_enable);
    let mut mux = match mux.enable() {
        Ok(enabled) => {
            let _ = enabled.disable();
            panic!("enable should fail");
        }
        Err((e, mux)) => {
            assert!(matches!(e, Error::EnablePinError(_)));
            mux
        }
    };
    select_ok(&mut mux, 3);
    let enabled = match mux.enable() {
        Ok(m) => m,
        Err(_) => panic!("second enable failed"),
    };
    let mux = match enabled.disable() {
        Ok(m) => m,
        Err(_) => panic!("disable failed"),
    };
    finish(mux.release());
}

#[test]
fn failed_disable_returns_enabled_handle() {
    let pin_0 = pin(&[low()]);
    let pin_1 = pin(&[low()]);
    let pin_2 = pin(&[low()]);
    let pin_3 = pin(&[low()]);
    let pin_enable = pin(&[high(), low(), broken(high()), high()]);

    let mux = built(pin_0, pin_1, pin_2, pin_3, pin_enable);
    let enabled = match mux.enable() {
        Ok(m) => m,
        Err(_) => panic!("enable failed"),
    };
    let enabled = match enabled.disable() {
        Ok(mux) => {
            finish(mux.release());
            panic!("disable should fail");
        }
        Err((e, enabled)) => {
            assert!(matches!(e, Error::EnablePinError(_)));
            enabled
        }
    };
    let mux = match enabled.disable() {
        Ok(m) => m,
        Err(_) => panic!("second disable failed"),
    };
    finish(mux.release());
}

#[test]
fn failed_selection_leaves_later_lines_alone_and_can_be_retried() {
    let mut mux = mux_then([
        &[high(), high()],
        &[broken(high()), high()],
        &[high()],
        &[low()],
    ]);
    match mux.set_channel_active(7) {
        Ok(()) => panic!("selection should fail"),
        Err(e) => assert!(matches!(e, Error::SelectPinError(_))),
    }
    select_ok(&mut mux, 7);
    finish(mux.release());
}

#[test]
fn release_writes_nothing() {
    let mux = mux_then([&[], &[], &[], &[]]);
    finish(mux.release());
}

#[test]
fn bit_test_reads_each_line() {
    assert!(is_bit_set(9, 0));
    assert!(!is_bit_set(9, 1));
    assert!(!is_bit_set(9, 2));
    assert!(is_bit_set(9, 3));
    assert!(!is_bit_set(6, 0));
    assert!(is_bit_set(6, 1));
    assert!(is_bit_set(6, 2));
    assert!(!is_bit_set(6, 3));
}

type MuxOfFive = CD74HC4067<MockPin, MockPin, MockPin, MockPin, MockPin, DisabledState>;

fn built_of_five(
    pin_0: MockPin,
    pin_1: MockPin,
    pin_2: MockPin,
    pin_3: MockPin,
    pin_enable: MockPin,
) -> MuxOfFive {
    match CD74HC4067::new(pin_0, pin_1, pin_2, pin_3, pin_enable) {
        Ok(mux) => mux,
        Err((e, pins)) => {
            finish(pins);
            panic!("construction failed: {:?}", e)
        }
    }
}

fn output_test(n: u8, levels: [bool; 4]) {
    let with_start = |is_high: bool| pin(&[low(), level(is_high)]);
    let mut mux = built_of_five(
        with_start(levels[0]),
        with_start(levels[1]),
        with_start(levels[2]),
        with_start(levels[3]),
        pin(&[high()]),
    );
    if let Err(e) = mux.set_output_active(n) {
        panic!("selection failed: {:?}", e);
    }
    finish(mux.release());
}

#[test]
fn test_make_mux() {
    let pin_0 = pin(&[low()]);
    let pin_1 = pin(&[low()]);
    let pin_2 = pin(&[low()]);
    let pin_3 = pin(&[low()]);
    let pin_enable = pin(&[high()]);

    let mux = built_of_five(pin_0, pin_1, pin_2, pin_3, pin_enable);
    finish(mux.release());
}

#[test]
fn test_enable() {
    let pin_0 = pin(&[low()]);
    let pin_1 = pin(&[low()]);
    let pin_2 = pin(&[low()]);
    let pin_3 = pin(&[low()]);
    let pin_enable = pin(&[high(), low(), high()]);

    let mux = built_of_five(pin_0, pin_1, pin_2, pin_3, pin_enable);
    let enabled_mux = match mux.enable() {
        Ok(m) => m,
        Err(_) => panic!("enable failed"),
    };
    let mux = match enabled_mux.disable() {
        Ok(m) => m,
        Err(_) => panic!("disable failed"),
    };
    finish(mux.release());
}

#[test]
fn test_set_output_to_9() {
    output_test(9, [true, false, false, true]);
}

#[test]
fn test_set_output_to_6() {
    output_test(6, [false, true, true, false]);
}

#[test]
fn test_set_output_to_10() {
    output_test(10, [false, true, false, true]);
}

#[test]
fn failed_enable_on_five_pin_handle_keeps_it() {
    let pin_0 = pin(&[low()]);
    let pin_1 = pin(&[low()]);
    let pin_2 = pin(&[low()]);
    let pin_3 = pin(&[low()]);
    let pin_enable = pin(&[high(), broken(low())]);

    let mux = built_of_five(pin_0, pin_1, pin_2, pin_3, pin_enable);
    match mux.enable() {
        Ok(enabled) => {
            let _ = enabled.disable();
            panic!("enable should fail");
        }
        Err((e, mux)) => {
            assert!(matches!(e, Error::EnablePinError(MockError::Io(ErrorKind::NotConnected))));
            finish(mux.release());
        }
    }
}
