use daisy_bsp::clocks::{Ccdr, CoreClocks, PeripheralToken};
use daisy_bsp::pins::PinHandle;
use daisy_bsp::usart::{Config, InitError, Interface};
use daisy_bsp::{configure_clocks, Peripherals};

/// Configures a fresh set of resources and hands back everything a serial
/// interface needs: the clock facts, the enable token, and the two
/// alternate-function pins.
fn serial_parts() -> (CoreClocks, PeripheralToken, PinHandle, PinHandle) {
    let p = Peripherals::new();
    let ccdr: Ccdr = configure_clocks(p.PWR, p.RCC, &p.SYSCFG).unwrap();
    let portb = p.GPIOB.split(ccdr.peripheral.GPIOB);
    let tx = portb.p14.into_alternate(4);
    let rx = portb.p15.into_alternate(4);
    (ccdr.clocks, ccdr.peripheral.USART1, tx, rx)
}

#[test]
fn divisor_matches_hand_calculation() {
    // 120 MHz bus clock at 115200 baud: 120_057_600 / 115_200 = 1042.
    let (clocks, token, tx, rx) = serial_parts();
    let i = Interface::init(&clocks, token, (tx, rx), Config { baud_rate_hz: 115_200 }).unwrap();
    assert_eq!(i.brr(), 1042);
}

#[test]
fn board_baud_rate_is_exact() {
    // 120 MHz bus clock at 31250 baud divides exactly: divisor 3840.
    let (clocks, token, tx, rx) = serial_parts();
    let i = Interface::init(&clocks, token, (tx, rx), Config { baud_rate_hz: 31_250 }).unwrap();
    assert_eq!(i.brr(), 3840);
}

#[test]
fn zero_baud_rate_is_refused() {
    let (clocks, token, tx, rx) = serial_parts();
    let r = Interface::init(&clocks, token, (tx, rx), Config { baud_rate_hz: 0 });
    assert!(matches!(r, Err(InitError::InvalidBaudRate)));
}

#[test]
fn out_of_range_divisor_is_refused() {
    // A 3 GHz request rounds to divisor 0, below the peripheral's
    // minimum of 16.
    let (clocks, token, tx, rx) = serial_parts();
    let r = Interface::init(&clocks, token, (tx, rx), Config { baud_rate_hz: 3_000_000_000 });
    assert!(matches!(r, Err(InitError::DivisorOutOfRange)));
}

#[test]
fn intolerable_rounding_is_refused() {
    // 7_272_727 baud rounds to divisor 17, which lands about 3 % off the
    // request - beyond the 2 % tolerance.
    let (clocks, token, tx, rx) = serial_parts();
    let r = Interface::init(&clocks, token, (tx, rx), Config { baud_rate_hz: 7_272_727 });
    assert!(matches!(r, Err(InitError::BaudToleranceExceeded)));
}
