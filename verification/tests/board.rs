use daisy_bsp::pins::PinMode;
use daisy_bsp::{Board, OwnershipFlag, Peripherals};

#[test]
fn take_returns_board_once() {
    let mut flag = OwnershipFlag::new();
    let first = Board::take(&mut flag, Peripherals::new());
    assert!(first.is_some());
    let second = Board::take(&mut flag, Peripherals::new());
    assert!(second.is_none());
    let third = Board::take(&mut flag, Peripherals::new());
    assert!(third.is_none());
}

#[test]
fn steal_bypasses_guard() {
    let mut flag = OwnershipFlag::new();
    let first = Board::take(&mut flag, Peripherals::new());
    assert!(first.is_some());
    let stolen = Board::steal(Peripherals::new());
    assert_eq!(stolen.clocks.sys_ck, 480_000_000);
}

#[test]
fn end_to_end_board() {
    let mut flag = OwnershipFlag::new();
    let board = Board::take(&mut flag, Peripherals::new()).unwrap();
    assert_eq!(board.clocks.sys_ck, 480_000_000);
    assert_eq!(board.clocks.hclk, 240_000_000);
    assert_eq!(board.clocks.pclk1, 120_000_000);
    assert_eq!(board.clocks.pclk2, 120_000_000);
    assert_eq!(board.clocks.pll3_p, Some(12_288_000));
    assert_eq!(12_288_000 % (48_000 * 256), 0);
    assert_eq!(board.pins.SEED_00.port(), 1);
    assert_eq!(board.pins.SEED_00.index(), 12);
    // 120 MHz bus clock at 31250 baud: divisor 120_000_000 / 31_250 = 3840.
    assert_eq!(board.USART1.brr(), 3840);
}

#[test]
fn pin_table_has_no_duplicates() {
    let board = Board::steal(Peripherals::new());
    let p = &board.pins;
    let codes: Vec<u32> = vec![
        code(p.SEED_00.port(), p.SEED_00.index()),
        code(p.SEED_01.port(), p.SEED_01.index()),
        code(p.SEED_02.port(), p.SEED_02.index()),
        code(p.SEED_03.port(), p.SEED_03.index()),
        code(p.SEED_04.port(), p.SEED_04.index()),
        code(p.SEED_05.port(), p.SEED_05.index()),
        code(p.SEED_06.port(), p.SEED_06.index()),
        code(p.SEED_07.port(), p.SEED_07.index()),
        code(p.SEED_08.port(), p.SEED_08.index()),
        code(p.SEED_09.port(), p.SEED_09.index()),
        code(p.SEED_10.port(), p.SEED_10.index()),
        code(p.SEED_11.port(), p.SEED_11.index()),
        code(p.SEED_12.port(), p.SEED_12.index()),
        code(p.SEED_13.port(), p.SEED_13.index()),
        code(p.SEED_14.port(), p.SEED_14.index()),
        code(p.SEED_15.port(), p.SEED_15.index()),
        code(p.SEED_16.port(), p.SEED_16.index()),
        code(p.SEED_17.port(), p.SEED_17.index()),
        code(p.SEED_18.port(), p.SEED_18.index()),
        code(p.SEED_19.port(), p.SEED_19.index()),
        code(p.SEED_20.port(), p.SEED_20.index()),
        code(p.SEED_21.port(), p.SEED_21.index()),
        code(p.SEED_22.port(), p.SEED_22.index()),
        code(p.SEED_23.port(), p.SEED_23.index()),
        code(p.SEED_24.port(), p.SEED_24.index()),
        code(p.SEED_25.port(), p.SEED_25.index()),
        code(p.SEED_26.port(), p.SEED_26.index()),
        code(p.SEED_27.port(), p.SEED_27.index()),
        code(p.SEED_28.port(), p.SEED_28.index()),
    ];
    assert_eq!(codes.len(), 29);
    for i in 0..codes.len() {
        for j in 0..codes.len() {
            if i != j {
                assert_ne!(codes[i], codes[j]);
            }
        }
    }
    // The serial pins (port B, pins 14 and 15) are not in the table.
    for c in &codes {
        assert_ne!(*c, code(1, 14));
        assert_ne!(*c, code(1, 15));
    }
}

fn code(port: u8, index: u8) -> u32 {
    (port as u32) * 16 + (index as u32)
}

#[test]
fn pins_start_in_reset_mode() {
    let board = Board::steal(Peripherals::new());
    assert_eq!(board.pins.SEED_00.mode(), PinMode::Analog);
    assert_eq!(board.pins.SEED_28.mode(), PinMode::Analog);
}

#[test]
fn user_led_toggles() {
    let mut board = Board::steal(Peripherals::new());
    assert!(!board.leds.USER.lit());
    board.leds.USER.on();
    assert!(board.leds.USER.lit());
    board.leds.USER.off();
    assert!(!board.leds.USER.lit());
}
