//! Serial interface assembly: consumes the peripheral's enable token and
//! the two alternate-function pins, and derives the baud divisor from the
//! peripheral's bus clock.

use vstd::prelude::*;
use crate::clocks::{abs_i, CoreClocks, PeripheralId, PeripheralToken};
use crate::pins::{usart_rx_code, usart_tx_code, PinHandle, PinMode};

verus! {

/// Baud rate the board's serial interface is assembled with.
pub const DEFAULT_BAUD_HZ: u32 = 31_250;

/// Smallest baud divisor the peripheral accepts.
pub const BRR_MIN: u32 = 16;

/// Largest baud divisor the peripheral accepts.
pub const BRR_MAX: u32 = 65_535;

/// Requested line configuration for the serial interface.
#[derive(Clone, Copy, PartialEq, Eq, Structural)]
pub struct Config {
    pub baud_rate_hz: u32,
}

/// Why the requested line configuration was refused.
#[derive(Clone, Copy, PartialEq, Eq, Structural, Debug)]
pub enum InitError {
    /// A baud rate of zero cannot be expressed.
    InvalidBaudRate,
    /// The rounded divisor falls outside the peripheral's divisor range.
    DivisorOutOfRange,
    /// The achievable baud rate misses the request by more than one part
    /// in fifty.
    BaudToleranceExceeded,
}

/// The baud divisor for bus clock `ker` and rate `baud`: the quotient
/// rounded to the nearest whole divisor.
pub open spec fn brr_of(ker: int, baud: int) -> int {
    (ker + baud / 2) / baud
}

/// How far the divisor's actual rate is from the requested one, scaled by
/// the divisor: `|ker - brr * baud|`.
pub open spec fn brr_err(ker: int, baud: int) -> int {
    abs_i(ker - brr_of(ker, baud) * baud)
}

/// Full specification of interface assembly for bus clock `ker` and the
/// requested `baud`: exactly one error per way the request can fail, and
/// on success the computed divisor.
pub open spec fn init_result_spec(ker: int, baud: int, r: Result<Interface, InitError>) -> bool {
    if baud <= 0 {
        r == Err::<Interface, InitError>(InitError::InvalidBaudRate)
    } else if !(BRR_MIN <= brr_of(ker, baud) <= BRR_MAX) {
        r == Err::<Interface, InitError>(InitError::DivisorOutOfRange)
    } else if !(50 * brr_err(ker, baud) <= brr_of(ker, baud) * baud) {
        r == Err::<Interface, InitError>(InitError::BaudToleranceExceeded)
    } else {
        match r {
            Ok(i) => i.brr_spec() == brr_of(ker, baud),
            Err(_) => false,
        }
    }
}

/// A configured serial interface: it exclusively owns its two
/// alternate-function pins and reports the divisor it was programmed
/// with.
pub struct Interface {
    tx: PinHandle,
    rx: PinHandle,
    brr: u32,
}

impl Interface {
    /// The divisor programmed into the peripheral.
    pub closed spec fn brr_spec(self) -> u32 {
        self.brr
    }

    /// The transmit pin held by the interface.
    pub closed spec fn tx_spec(self) -> PinHandle {
        self.tx
    }

    /// The receive pin held by the interface.
    pub closed spec fn rx_spec(self) -> PinHandle {
        self.rx
    }

    pub fn brr(&self) -> (r: u32)
        ensures
            r == self.brr_spec(),
    {
        self.brr
    }

    /// Assembles the interface: consumes the peripheral's enable token
    /// and the two serial pins (so neither can be reused), computes the
    /// baud divisor from the peripheral's bus clock, and refuses any
    /// configuration it cannot express within tolerance.
    pub fn init(
        clocks: &CoreClocks,
        token: PeripheralToken,
        pins: (PinHandle, PinHandle),
        config: Config,
    ) -> (r: Result<Interface, InitError>)
        requires
            token.id() == PeripheralId::Usart1,
            pins.0.mode_spec() == PinMode::Alternate(4),
            pins.0.code() == usart_tx_code(),
            pins.1.mode_spec() == PinMode::Alternate(4),
            pins.1.code() == usart_rx_code(),
        ensures
            init_result_spec(clocks.pclk2 as int, config.baud_rate_hz as int, r),
            r matches Ok(i) ==> i.tx_spec() == pins.0 && i.rx_spec() == pins.1,
    {
        let ker: u32 = clocks.pclk2;
        let baud: u32 = config.baud_rate_hz;
        if baud == 0 {
            return Err(InitError::InvalidBaudRate);
        }
        let div: u64 = ((ker as u64) + (baud as u64) / 2) / (baud as u64);
        if div < (BRR_MIN as u64) || div > (BRR_MAX as u64) {
            return Err(InitError::DivisorOutOfRange);
        }
        proof {
            assert((div as int) * (baud as int) <= 65535int * 4294967295int) by (nonlinear_arith)
                requires
                    div <= 65535u64,
            ;
        }
        let actual: u64 = div * (baud as u64);
        let err: u64 = if actual >= (ker as u64) {
            actual - (ker as u64)
        } else {
            (ker as u64) - actual
        };
        if 50 * err > actual {
            return Err(InitError::BaudToleranceExceeded);
        }
        Ok(Interface { tx: pins.0, rx: pins.1, brr: div as u32 })
    }
}

} // verus!
