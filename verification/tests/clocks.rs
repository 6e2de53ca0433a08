use daisy_bsp::clocks::ClockError;
use daisy_bsp::{configure_clocks, Peripherals};

#[test]
fn configure_hits_480_mhz_exactly() {
    let p = Peripherals::new();
    let ccdr = configure_clocks(p.PWR, p.RCC, &p.SYSCFG).unwrap();
    assert_eq!(ccdr.clocks.sys_ck, 480_000_000);
    assert_eq!(ccdr.clocks.hclk, 240_000_000);
    assert_eq!(ccdr.clocks.pclk1, 120_000_000);
    assert_eq!(ccdr.clocks.pclk2, 120_000_000);
    assert_eq!(ccdr.clocks.pll3_p, Some(12_288_000));
}

#[test]
fn configure_is_deterministic() {
    let p1 = Peripherals::new();
    let c1 = configure_clocks(p1.PWR, p1.RCC, &p1.SYSCFG).unwrap();
    let p2 = Peripherals::new();
    let c2 = configure_clocks(p2.PWR, p2.RCC, &p2.SYSCFG).unwrap();
    assert_eq!(c1.clocks.sys_ck, c2.clocks.sys_ck);
    assert_eq!(c1.clocks.pll3_p, c2.clocks.pll3_p);
}

#[test]
fn audio_clock_independent_of_sys_target() {
    // Same audio target, different system-clock targets: the audio
    // output is identical, and an exact multiple of 48 kHz x 256.
    let p1 = Peripherals::new();
    let pwrcfg1 = p1.PWR.vos0(&p1.SYSCFG).freeze();
    let c1 = p1.RCC.use_seed_crystal().sys_ck(480_000_000).pll3_p_ck(12_288_000).freeze(pwrcfg1)
        .unwrap();
    let p2 = Peripherals::new();
    let pwrcfg2 = p2.PWR.freeze();
    let c2 = p2.RCC.use_seed_crystal().sys_ck(400_000_000).pll3_p_ck(12_288_000).freeze(pwrcfg2)
        .unwrap();
    assert_eq!(c1.clocks.pll3_p, Some(12_288_000));
    assert_eq!(c2.clocks.pll3_p, Some(12_288_000));
    assert_eq!(c1.clocks.pll3_p, c2.clocks.pll3_p);
    assert_eq!(12_288_000 % (48_000 * 256), 0);
    // The 400 MHz target also has an exact divider solution.
    assert_eq!(c2.clocks.sys_ck, 400_000_000);
}

#[test]
fn freeze_requires_external_oscillator() {
    let p = Peripherals::new();
    let pwrcfg = p.PWR.vos0(&p.SYSCFG).freeze();
    let r = p.RCC.sys_ck(480_000_000).freeze(pwrcfg);
    assert!(matches!(r, Err(ClockError::ExternalOscillatorRequired)));
}

#[test]
fn freeze_requires_sys_clock_target() {
    let p = Peripherals::new();
    let pwrcfg = p.PWR.vos0(&p.SYSCFG).freeze();
    let r = p.RCC.use_seed_crystal().freeze(pwrcfg);
    assert!(matches!(r, Err(ClockError::SysClockTargetMissing)));
}

#[test]
fn full_speed_needs_highest_voltage_scale() {
    // Without the vos0 step the default operating point tops out at
    // 400 MHz, so the 480 MHz target is refused.
    let p = Peripherals::new();
    let pwrcfg = p.PWR.freeze();
    let r = p.RCC.use_seed_crystal().sys_ck(480_000_000).freeze(pwrcfg);
    assert!(matches!(r, Err(ClockError::VoltageScaleTooLow)));
}

#[test]
fn unreachable_sys_target_is_reported() {
    // 1 kHz is far below anything the divider space can produce.
    let p = Peripherals::new();
    let pwrcfg = p.PWR.vos0(&p.SYSCFG).freeze();
    let r = p.RCC.use_seed_crystal().sys_ck(1_000).freeze(pwrcfg);
    assert!(matches!(r, Err(ClockError::SysClockUnreachable)));
}

#[test]
fn inexact_audio_target_is_reported() {
    // 12_288_001 Hz has no exact divider solution from 16 MHz.
    let p = Peripherals::new();
    let pwrcfg = p.PWR.vos0(&p.SYSCFG).freeze();
    let r = p.RCC.use_seed_crystal().sys_ck(400_000_000).pll3_p_ck(12_288_001).freeze(pwrcfg);
    assert!(matches!(r, Err(ClockError::AudioClockUnreachable)));
}
