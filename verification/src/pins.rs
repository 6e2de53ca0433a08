//! Pin binding: splitting GPIO ports into exclusively owned pin handles
//! and placing them in the board's fixed 29-entry symbolic pin table.

use vstd::prelude::*;
use crate::clocks::{PeripheralId, PeripheralToken};

verus! {

/// Number of entries in the symbolic pin table.
pub const SEED_PIN_COUNT: u32 = 29;

/// Electrical mode of a pin. A mode change consumes the old handle and
/// mints a new one, so no handle exists in two modes at once.
#[derive(Clone, Copy, PartialEq, Eq, Structural, Debug)]
pub enum PinMode {
    /// Reset state of every pin after a port split.
    Analog,
    Input,
    Output,
    /// Routed to an on-chip peripheral through the numbered alternate
    /// function.
    Alternate(u8),
}

/// Exclusive ownership of one physical pin, tagged with its current mode.
pub struct PinHandle {
    port: u8,
    index: u8,
    mode: PinMode,
}

/// Packs a (port, index) pair into a single physical pin number.
pub open spec fn pin_code(port: int, index: int) -> int {
    port * 16 + index
}

/// The board's fixed symbolic pin table: entry `i` of the table names
/// physical pin `(port, index)`, with ports numbered A = 0 through G = 6.
/// This table is authoritative and never derived at runtime.
pub open spec fn seed_pin(i: int) -> (int, int) {
    if i == 0 {
        (1int, 12int)
    } else if i == 1 {
        (2int, 11int)
    } else if i == 2 {
        (2int, 10int)
    } else if i == 3 {
        (2int, 9int)
    } else if i == 4 {
        (2int, 8int)
    } else if i == 5 {
        (3int, 2int)
    } else if i == 6 {
        (2int, 12int)
    } else if i == 7 {
        (6int, 10int)
    } else if i == 8 {
        (6int, 11int)
    } else if i == 9 {
        (1int, 4int)
    } else if i == 10 {
        (1int, 5int)
    } else if i == 11 {
        (1int, 8int)
    } else if i == 12 {
        (1int, 9int)
    } else if i == 13 {
        (1int, 6int)
    } else if i == 14 {
        (1int, 7int)
    } else if i == 15 {
        (2int, 0int)
    } else if i == 16 {
        (0int, 3int)
    } else if i == 17 {
        (1int, 1int)
    } else if i == 18 {
        (0int, 7int)
    } else if i == 19 {
        (0int, 6int)
    } else if i == 20 {
        (2int, 1int)
    } else if i == 21 {
        (2int, 4int)
    } else if i == 22 {
        (0int, 5int)
    } else if i == 23 {
        (0int, 4int)
    } else if i == 24 {
        (0int, 1int)
    } else if i == 25 {
        (0int, 0int)
    } else if i == 26 {
        (3int, 11int)
    } else if i == 27 {
        (6int, 9int)
    } else {
        (0int, 2int)
    }
}

/// Physical pin number of table entry `i`.
pub open spec fn seed_pin_code(i: int) -> int {
    pin_code(seed_pin(i).0, seed_pin(i).1)
}

/// Physical pin carrying the serial transmit line (port B, pin 14).
pub open spec fn usart_tx_code() -> int {
    pin_code(1, 14)
}

/// Physical pin carrying the serial receive line (port B, pin 15).
pub open spec fn usart_rx_code() -> int {
    pin_code(1, 15)
}

/// Law: the 29-entry pin table is a bijection onto distinct physical
/// pins - no two symbolic names resolve to the same pin - and none of its
/// pins is reused by the two serial-interface pins.
pub proof fn lemma_pin_table_bijective()
    ensures
        forall|i: int, j: int|
            0 <= i < SEED_PIN_COUNT && 0 <= j < SEED_PIN_COUNT && i != j ==> #[trigger] seed_pin_code(i)
                != #[trigger] seed_pin_code(j),
        forall|i: int|
            0 <= i < SEED_PIN_COUNT ==> #[trigger] seed_pin_code(i) != usart_tx_code()
                && seed_pin_code(i) != usart_rx_code(),
{
}

impl PinHandle {
    /// Port number, A = 0 through G = 6.
    pub closed spec fn port_spec(self) -> u8 {
        self.port
    }

    /// Pin number within the port.
    pub closed spec fn index_spec(self) -> u8 {
        self.index
    }

    /// Current electrical mode.
    pub closed spec fn mode_spec(self) -> PinMode {
        self.mode
    }

    /// Physical pin number of this handle.
    pub open spec fn code(self) -> int {
        pin_code(self.port_spec() as int, self.index_spec() as int)
    }

    pub fn port(&self) -> (r: u8)
        ensures
            r == self.port_spec(),
    {
        self.port
    }

    pub fn index(&self) -> (r: u8)
        ensures
            r == self.index_spec(),
    {
        self.index
    }

    pub fn mode(&self) -> (r: PinMode)
        ensures
            r == self.mode_spec(),
    {
        self.mode
    }

    /// Routes the pin to alternate function `af`, consuming the
    /// general-purpose handle.
    pub fn into_alternate(self, af: u8) -> (r: PinHandle)
        requires
            af < 16,
        ensures
            r.port_spec() == self.port_spec(),
            r.index_spec() == self.index_spec(),
            r.mode_spec() == PinMode::Alternate(af),
    {
        PinHandle { mode: PinMode::Alternate(af), ..self }
    }

    /// Reconfigures the pin as a push-pull output, consuming the old
    /// handle.
    pub fn into_push_pull_output(self) -> (r: PinHandle)
        ensures
            r.port_spec() == self.port_spec(),
            r.index_spec() == self.index_spec(),
            r.mode_spec() == PinMode::Output,
    {
        PinHandle { mode: PinMode::Output, ..self }
    }
}

/// One GPIO port's registers, owned as a unit until split into pins.
pub struct GpioPort {
    port: u8,
}

/// The enable token that gates splitting each port.
pub open spec fn gpio_token_id(port: int) -> PeripheralId {
    if port == 0 {
        PeripheralId::GpioA
    } else if port == 1 {
        PeripheralId::GpioB
    } else if port == 2 {
        PeripheralId::GpioC
    } else if port == 3 {
        PeripheralId::GpioD
    } else if port == 4 {
        PeripheralId::GpioE
    } else {
        PeripheralId::GpioG
    }
}

/// The sixteen pins of one port, each exclusively owned, in reset mode.
pub struct PortPins {
    pub p0: PinHandle,
    pub p1: PinHandle,
    pub p2: PinHandle,
    pub p3: PinHandle,
    pub p4: PinHandle,
    pub p5: PinHandle,
    pub p6: PinHandle,
    pub p7: PinHandle,
    pub p8: PinHandle,
    pub p9: PinHandle,
    pub p10: PinHandle,
    pub p11: PinHandle,
    pub p12: PinHandle,
    pub p13: PinHandle,
    pub p14: PinHandle,
    pub p15: PinHandle,
}

/// One freshly split pin: the named port, the named index, reset mode.
pub open spec fn fresh_pin(h: PinHandle, port: u8, index: u8) -> bool {
    &&& h.port_spec() == port
    &&& h.index_spec() == index
    &&& h.mode_spec() == PinMode::Analog
}

impl PortPins {
    /// Every pin of the split carries its own index on the named port.
    pub open spec fn wf(self, port: u8) -> bool {
        &&& fresh_pin(self.p0, port, 0)
        &&& fresh_pin(self.p1, port, 1)
        &&& fresh_pin(self.p2, port, 2)
        &&& fresh_pin(self.p3, port, 3)
        &&& fresh_pin(self.p4, port, 4)
        &&& fresh_pin(self.p5, port, 5)
        &&& fresh_pin(self.p6, port, 6)
        &&& fresh_pin(self.p7, port, 7)
        &&& fresh_pin(self.p8, port, 8)
        &&& fresh_pin(self.p9, port, 9)
        &&& fresh_pin(self.p10, port, 10)
        &&& fresh_pin(self.p11, port, 11)
        &&& fresh_pin(self.p12, port, 12)
        &&& fresh_pin(self.p13, port, 13)
        &&& fresh_pin(self.p14, port, 14)
        &&& fresh_pin(self.p15, port, 15)
    }
}

impl GpioPort {
    /// Port number, A = 0 through G = 6.
    pub closed spec fn port_spec(self) -> u8 {
        self.port
    }

    pub(crate) fn fresh(port: u8) -> (r: GpioPort)
        requires
            port <= 6,
        ensures
            r.port_spec() == port,
    {
        GpioPort { port }
    }

    /// Splits the port into sixteen individually owned pins, consuming
    /// the port resource and this port's enable token.
    pub fn split(self, token: PeripheralToken) -> (r: PortPins)
        requires
            token.id() == gpio_token_id(self.port_spec() as int),
        ensures
            r.wf(self.port_spec()),
    {
        let port: u8 = self.port;
        PortPins {
            p0: PinHandle { port, index: 0, mode: PinMode::Analog },
            p1: PinHandle { port, index: 1, mode: PinMode::Analog },
            p2: PinHandle { port, index: 2, mode: PinMode::Analog },
            p3: PinHandle { port, index: 3, mode: PinMode::Analog },
            p4: PinHandle { port, index: 4, mode: PinMode::Analog },
            p5: PinHandle { port, index: 5, mode: PinMode::Analog },
            p6: PinHandle { port, index: 6, mode: PinMode::Analog },
            p7: PinHandle { port, index: 7, mode: PinMode::Analog },
            p8: PinHandle { port, index: 8, mode: PinMode::Analog },
            p9: PinHandle { port, index: 9, mode: PinMode::Analog },
            p10: PinHandle { port, index: 10, mode: PinMode::Analog },
            p11: PinHandle { port, index: 11, mode: PinMode::Analog },
            p12: PinHandle { port, index: 12, mode: PinMode::Analog },
            p13: PinHandle { port, index: 13, mode: PinMode::Analog },
            p14: PinHandle { port, index: 14, mode: PinMode::Analog },
            p15: PinHandle { port, index: 15, mode: PinMode::Analog },
        }
    }
}

/// The fixed table of symbolically named board pins, each exclusively
/// owned.
#[allow(non_snake_case)]
pub struct Pins {
    pub SEED_00: PinHandle,
    pub SEED_01: PinHandle,
    pub SEED_02: PinHandle,
    pub SEED_03: PinHandle,
    pub SEED_04: PinHandle,
    pub SEED_05: PinHandle,
    pub SEED_06: PinHandle,
    pub SEED_07: PinHandle,
    pub SEED_08: PinHandle,
    pub SEED_09: PinHandle,
    pub SEED_10: PinHandle,
    pub SEED_11: PinHandle,
    pub SEED_12: PinHandle,
    pub SEED_13: PinHandle,
    pub SEED_14: PinHandle,
    pub SEED_15: PinHandle,
    pub SEED_16: PinHandle,
    pub SEED_17: PinHandle,
    pub SEED_18: PinHandle,
    pub SEED_19: PinHandle,
    pub SEED_20: PinHandle,
    pub SEED_21: PinHandle,
    pub SEED_22: PinHandle,
    pub SEED_23: PinHandle,
    pub SEED_24: PinHandle,
    pub SEED_25: PinHandle,
    pub SEED_26: PinHandle,
    pub SEED_27: PinHandle,
    pub SEED_28: PinHandle,
}

/// Table entry `i` holds exactly the physical pin the authoritative table
/// names, still in reset mode.
pub open spec fn pin_at(h: PinHandle, i: int) -> bool {
    &&& h.port_spec() as int == seed_pin(i).0
    &&& h.index_spec() as int == seed_pin(i).1
    &&& h.mode_spec() == PinMode::Analog
}

impl Pins {
    /// Every symbolic name resolves to its documented physical pin.
    pub open spec fn wf(self) -> bool {
        &&& pin_at(self.SEED_00, 0)
        &&& pin_at(self.SEED_01, 1)
        &&& pin_at(self.SEED_02, 2)
        &&& pin_at(self.SEED_03, 3)
        &&& pin_at(self.SEED_04, 4)
        &&& pin_at(self.SEED_05, 5)
        &&& pin_at(self.SEED_06, 6)
        &&& pin_at(self.SEED_07, 7)
        &&& pin_at(self.SEED_08, 8)
        &&& pin_at(self.SEED_09, 9)
        &&& pin_at(self.SEED_10, 10)
        &&& pin_at(self.SEED_11, 11)
        &&& pin_at(self.SEED_12, 12)
        &&& pin_at(self.SEED_13, 13)
        &&& pin_at(self.SEED_14, 14)
        &&& pin_at(self.SEED_15, 15)
        &&& pin_at(self.SEED_16, 16)
        &&& pin_at(self.SEED_17, 17)
        &&& pin_at(self.SEED_18, 18)
        &&& pin_at(self.SEED_19, 19)
        &&& pin_at(self.SEED_20, 20)
        &&& pin_at(self.SEED_21, 21)
        &&& pin_at(self.SEED_22, 22)
        &&& pin_at(self.SEED_23, 23)
        &&& pin_at(self.SEED_24, 24)
        &&& pin_at(self.SEED_25, 25)
        &&& pin_at(self.SEED_26, 26)
        &&& pin_at(self.SEED_27, 27)
        &&& pin_at(self.SEED_28, 28)
    }
}

/// Binds the split ports into the fixed pin table and routes the pins
/// that peripherals need: the two serial-line pins are reconfigured to
/// alternate function 4 (and are thereafter unavailable as
/// general-purpose pins), and the user-LED pin is handed out separately.
/// Returns `(table, serial_tx, serial_rx, led)`.
pub fn bind_pins(
    a: PortPins,
    b: PortPins,
    c: PortPins,
    d: PortPins,
    e: PortPins,
    g: PortPins,
) -> (r: (Pins, PinHandle, PinHandle, PinHandle))
    requires
        a.wf(0),
        b.wf(1),
        c.wf(2),
        d.wf(3),
        e.wf(4),
        g.wf(6),
    ensures
        r.0.wf(),
        r.1.port_spec() == 1 && r.1.index_spec() == 14 && r.1.mode_spec() == PinMode::Alternate(4),
        r.2.port_spec() == 1 && r.2.index_spec() == 15 && r.2.mode_spec() == PinMode::Alternate(4),
        r.3.port_spec() == 2 && r.3.index_spec() == 7 && r.3.mode_spec() == PinMode::Analog,
{
    let tx: PinHandle = b.p14.into_alternate(4);
    let rx: PinHandle = b.p15.into_alternate(4);
    let led: PinHandle = c.p7;
    let pins: Pins = Pins {
        SEED_00: b.p12,
        SEED_01: c.p11,
        SEED_02: c.p10,
        SEED_03: c.p9,
        SEED_04: c.p8,
        SEED_05: d.p2,
        SEED_06: c.p12,
        SEED_07: g.p10,
        SEED_08: g.p11,
        SEED_09: b.p4,
        SEED_10: b.p5,
        SEED_11: b.p8,
        SEED_12: b.p9,
        SEED_13: b.p6,
        SEED_14: b.p7,
        SEED_15: c.p0,
        SEED_16: a.p3,
        SEED_17: b.p1,
        SEED_18: a.p7,
        SEED_19: a.p6,
        SEED_20: c.p1,
        SEED_21: c.p4,
        SEED_22: a.p5,
        SEED_23: a.p4,
        SEED_24: a.p1,
        SEED_25: a.p0,
        SEED_26: d.p11,
        SEED_27: g.p9,
        SEED_28: a.p2,
    };
    (pins, tx, rx, led)
}

} // verus!
