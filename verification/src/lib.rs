//! Board-support core for the Daisy Seed: a singleton acquisition guard,
//! a verified clock-tree configurator, the fixed symbolic pin table, and
//! the serial interface assembler, combined into a single board aggregate
//! that is handed out at most once per guard.

use vstd::prelude::*;

pub mod clocks;
pub mod led;
pub mod pins;
pub mod usart;

pub use clocks::configure as configure_clocks;

use clocks::{AUDIO_BASE_HZ, CoreClocks, ClockError, Pwr, Rcc, Syscfg, SYS_CK_TARGET_HZ};
use led::{LedUser, Leds};
use pins::{bind_pins, GpioPort, PinHandle, Pins, PortPins};
use usart::{brr_of, Config, InitError, Interface, DEFAULT_BAUD_HZ};
use vstd::pervasive::unreached;

verus! {

/// Process-wide ownership flag for the board's hardware resource set:
/// clear until the first successful claim, then permanently set.
pub struct OwnershipFlag {
    taken: bool,
}

/// One guarded claim step: the claim is granted exactly when the flag was
/// clear beforehand, and the flag is set afterwards, permanently.
pub open spec fn claim_transition(pre: OwnershipFlag, post: OwnershipFlag, granted: bool) -> bool {
    granted == !pre.is_taken() && post.is_taken()
}

impl OwnershipFlag {
    /// Whether a claim has already been granted through this flag.
    pub closed spec fn is_taken(self) -> bool {
        self.taken
    }

    pub fn new() -> (r: OwnershipFlag)
        ensures
            !r.is_taken(),
    {
        OwnershipFlag { taken: false }
    }
}

/// Law: at most one claim is ever granted through a flag. The first claim
/// on a clear flag is granted; after any claim, every later claim is
/// refused.
pub proof fn lemma_acquire_at_most_once(
    f0: OwnershipFlag,
    f1: OwnershipFlag,
    g1: bool,
    f2: OwnershipFlag,
    g2: bool,
)
    requires
        claim_transition(f0, f1, g1),
        claim_transition(f1, f2, g2),
    ensures
        g1 == !f0.is_taken(),
        !g2,
{
}

/// The raw, un-owned hardware register blocks, as handed over by the
/// device. Creating this value does not by itself grant exclusivity -
/// that is the ownership guard's job.
#[allow(non_snake_case)]
pub struct Peripherals {
    pub PWR: Pwr,
    pub RCC: Rcc,
    pub SYSCFG: Syscfg,
    pub GPIOA: GpioPort,
    pub GPIOB: GpioPort,
    pub GPIOC: GpioPort,
    pub GPIOD: GpioPort,
    pub GPIOE: GpioPort,
    pub GPIOG: GpioPort,
}

impl Peripherals {
    /// Each port handle stands for its own port.
    pub open spec fn wf(self) -> bool {
        &&& self.GPIOA.port_spec() == 0
        &&& self.GPIOB.port_spec() == 1
        &&& self.GPIOC.port_spec() == 2
        &&& self.GPIOD.port_spec() == 3
        &&& self.GPIOE.port_spec() == 4
        &&& self.GPIOG.port_spec() == 6
    }

    pub fn new() -> (r: Peripherals)
        ensures
            r.wf(),
    {
        Peripherals {
            PWR: Pwr::fresh(),
            RCC: Rcc::fresh(),
            SYSCFG: Syscfg {},
            GPIOA: GpioPort::fresh(0),
            GPIOB: GpioPort::fresh(1),
            GPIOC: GpioPort::fresh(2),
            GPIOD: GpioPort::fresh(3),
            GPIOE: GpioPort::fresh(4),
            GPIOG: GpioPort::fresh(6),
        }
    }
}

/// Everything that can go wrong while assembling the board.
#[derive(Clone, Copy, PartialEq, Eq, Structural, Debug)]
pub enum BoardError {
    /// Clock configuration failed; a board without clocks cannot run.
    Clock(ClockError),
    /// The serial interface could not express its line configuration.
    Serial(InitError),
}

/// The board aggregate: the frozen clock description, the symbolic pin
/// table, the LEDs, and the serial interface, all exclusively owned.
#[allow(non_snake_case)]
pub struct Board {
    pub clocks: CoreClocks,
    pub pins: Pins,
    pub leds: Leds,
    pub USART1: Interface,
}

impl Board {
    /// A fully assembled board: the system clock is exactly at its
    /// 480 MHz target, the audio clock exactly at 48 kHz x 256, the pin
    /// table matches the authoritative table, the LED is bound, and the
    /// serial divisor is the one computed from the bus clock and the
    /// board baud rate.
    pub open spec fn wf(self) -> bool {
        &&& self.clocks.sys_ck == SYS_CK_TARGET_HZ
        &&& self.clocks.hclk == SYS_CK_TARGET_HZ / 2
        &&& self.clocks.pclk1 == SYS_CK_TARGET_HZ / 4
        &&& self.clocks.pclk2 == SYS_CK_TARGET_HZ / 4
        &&& self.clocks.pll3_p == Some(AUDIO_BASE_HZ)
        &&& self.pins.wf()
        &&& self.leds.USER.wf()
        &&& self.USART1.brr_spec() == brr_of(SYS_CK_TARGET_HZ as int / 4, DEFAULT_BAUD_HZ as int)
    }

    /// Returns the board once per ownership flag: a populated board on
    /// the first call, nothing on every later call. The flag is set
    /// permanently by the first call.
    pub fn take(flag: &mut OwnershipFlag, p: Peripherals) -> (r: Option<Board>)
        requires
            p.wf(),
        ensures
            claim_transition(*old(flag), *final(flag), r is Some),
            r matches Some(b) ==> b.wf(),
    {
        if flag.taken {
            None
        } else {
            flag.taken = true;
            match Board::new(p) {
                Ok(b) => Some(b),
                Err(_) => unreached(),
            }
        }
    }

    /// Unchecked version of `Board::take`: bypasses the singleton guard.
    /// Only for harnesses or recovery code that guarantee exclusivity by
    /// other means; misuse violates the single-owner invariant.
    pub fn steal(p: Peripherals) -> (r: Board)
        requires
            p.wf(),
        ensures
            r.wf(),
    {
        match Board::new(p) {
            Ok(b) => b,
            Err(_) => unreached(),
        }
    }

    /// Assembles the board: configures the clock tree, splits the ports,
    /// binds the pin table, and builds the serial interface, propagating
    /// any assembly error. For this board's fixed targets every step
    /// provably succeeds.
    fn new(p: Peripherals) -> (r: Result<Board, BoardError>)
        requires
            p.wf(),
        ensures
            r matches Ok(b) && b.wf(),
    {
        let ccdr: clocks::Ccdr = match clocks::configure(p.PWR, p.RCC, &p.SYSCFG) {
            Ok(c) => c,
            Err(e) => {
                return Err(BoardError::Clock(e));
            },
        };
        let pa: PortPins = p.GPIOA.split(ccdr.peripheral.GPIOA);
        let pb: PortPins = p.GPIOB.split(ccdr.peripheral.GPIOB);
        let pc: PortPins = p.GPIOC.split(ccdr.peripheral.GPIOC);
        let pd: PortPins = p.GPIOD.split(ccdr.peripheral.GPIOD);
        let pe: PortPins = p.GPIOE.split(ccdr.peripheral.GPIOE);
        let pg: PortPins = p.GPIOG.split(ccdr.peripheral.GPIOG);
        let bound: (Pins, PinHandle, PinHandle, PinHandle) = bind_pins(pa, pb, pc, pd, pe, pg);
        let (table, tx, rx, led_pin): (Pins, PinHandle, PinHandle, PinHandle) = bound;
        let usart1: Interface = match Interface::init(
            &ccdr.clocks,
            ccdr.peripheral.USART1,
            (tx, rx),
            Config { baud_rate_hz: DEFAULT_BAUD_HZ },
        ) {
            Ok(i) => i,
            Err(e) => {
                return Err(BoardError::Serial(e));
            },
        };
        Ok(
            Board {
                clocks: ccdr.clocks,
                pins: table,
                leds: Leds { USER: LedUser::new(led_pin) },
                USART1: usart1,
            },
        )
    }
}

} // verus!
