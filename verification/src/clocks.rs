//! Clock-tree configuration: voltage scaling, oscillator selection, and the
//! iterative PLL divider search that derives the system and audio clocks
//! from the board's fixed external crystal.

use vstd::prelude::*;

verus! {

/// Frequency of the external crystal wired to the high-speed oscillator
/// input, in hertz. Fixed by the board layout; the internal oscillator is
/// not wired up on this board.
pub const CRYSTAL_FREQ_HZ: u32 = 16_000_000;

/// Target system-clock frequency for this board, in hertz.
pub const SYS_CK_TARGET_HZ: u32 = 480_000_000;

/// Audio master-clock base rate: 48 kHz sample rate times the usual 256x
/// codec master-clock ratio. The audio PLL output must be an exact multiple
/// of this.
pub const AUDIO_BASE_HZ: u32 = 48_000 * 256;

/// Smallest PLL reference frequency (crystal divided by `divm`), in hertz.
pub const PLL_REF_MIN_HZ: u32 = 1_000_000;

/// Largest PLL reference frequency, in hertz.
pub const PLL_REF_MAX_HZ: u32 = 16_000_000;

/// Smallest frequency the PLL's internal oscillator may run at, in hertz.
pub const PLL_VCO_MIN_HZ: u32 = 192_000_000;

/// Largest frequency the PLL's internal oscillator may run at, in hertz.
pub const PLL_VCO_MAX_HZ: u32 = 836_000_000;

/// Largest reference divider `divm`.
pub const PLL_M_MAX: u32 = 63;

/// Smallest multiplier `divn`.
pub const PLL_N_MIN: u32 = 4;

/// Largest multiplier `divn`.
pub const PLL_N_MAX: u32 = 512;

/// Largest output divider `divp`.
pub const PLL_P_MAX: u32 = 128;

/// Absolute value over the mathematical integers.
pub open spec fn abs_i(x: int) -> int {
    if x < 0 {
        -x
    } else {
        x
    }
}

/// A divider/multiplier triple is admissible for a PLL when every register
/// field is in range, the reference frequency `hse / m` lies in the allowed
/// band, the internal oscillator frequency `hse * n / m` lies in its band,
/// and - for a PLL whose output divider only supports even division - `p`
/// is 1 or even. All frequency conditions are stated cross-multiplied so
/// they are exact over the integers.
pub open spec fn pll_ok(hse: int, even_p: bool, m: int, n: int, p: int) -> bool {
    &&& 1 <= m <= PLL_M_MAX
    &&& PLL_N_MIN <= n <= PLL_N_MAX
    &&& 1 <= p <= PLL_P_MAX
    &&& (even_p ==> (p == 1 || p % 2 == 0))
    &&& (PLL_REF_MIN_HZ as int) * m <= hse
    &&& hse <= (PLL_REF_MAX_HZ as int) * m
    &&& (PLL_VCO_MIN_HZ as int) * m <= hse * n
    &&& hse * n <= (PLL_VCO_MAX_HZ as int) * m
}

/// Distance of the triple's output `hse * n / (m * p)` from `target`,
/// scaled by the denominator `m * p` so it stays an integer:
/// `|hse * n / (m * p) - target| * (m * p)`.
pub open spec fn pll_err(hse: int, target: int, m: int, n: int, p: int) -> int {
    abs_i(hse * n - target * (m * p))
}

/// The triple's output is within `tol` hertz of `target` (cross-multiplied
/// by the denominator `m * p`).
pub open spec fn within_tol(hse: int, target: int, tol: int, m: int, n: int, p: int) -> bool {
    pll_err(hse, target, m, n, p) <= tol * (m * p)
}

/// The triple `(m, n, p)` is at least as close to `target` as every
/// admissible triple (fractions compared cross-multiplied).
pub open spec fn pll_best(hse: int, target: int, even_p: bool, m: int, n: int, p: int) -> bool {
    forall|mi: int, ni: int, pi: int|
        #[trigger] pll_ok(hse, even_p, mi, ni, pi) ==> pll_err(hse, target, m, n, p) * (mi * pi)
            <= pll_err(hse, target, mi, ni, pi) * (m * p)
}

/// Some admissible triple reaches `target` within a tolerance of one part
/// in a thousand of `target`.
pub open spec fn sys_reachable(hse: int, target: int) -> bool {
    exists|mi: int, ni: int, pi: int|
        #[trigger] pll_ok(hse, true, mi, ni, pi) && within_tol(
            hse,
            target,
            target / 1000,
            mi,
            ni,
            pi,
        )
}

/// Some admissible triple reaches `target` exactly.
pub open spec fn audio_reachable(hse: int, target: int) -> bool {
    exists|mi: int, ni: int, pi: int|
        #[trigger] pll_ok(hse, false, mi, ni, pi) && hse * ni == target * (mi * pi)
}

/// Transitivity of cross-multiplied fraction comparison:
/// `e1/d1 <= e2/d2` and `e2/d2 <= e3/d3` give `e1/d1 <= e3/d3`.
proof fn lemma_frac_le_trans(e1: int, d1: int, e2: int, d2: int, e3: int, d3: int)
    by (nonlinear_arith)
    requires
        d1 > 0,
        d2 > 0,
        d3 > 0,
        e1 * d2 <= e2 * d1,
        e2 * d3 <= e3 * d2,
    ensures
        e1 * d3 <= e3 * d1,
{
}

/// If the best fraction already exceeds the tolerance, so does every
/// fraction it dominates.
proof fn lemma_frac_above_tol(eb: int, db: int, ei: int, di: int, tol: int)
    by (nonlinear_arith)
    requires
        db > 0,
        di > 0,
        tol >= 0,
        eb * di <= ei * db,
        tol * db < eb,
    ensures
        tol * di < ei,
{
}

/// Lexicographic order on divider triples; the search visits them in this
/// order.
pub open spec fn lex_before(mi: int, ni: int, pi: int, m: int, n: int, p: int) -> bool {
    ||| mi < m
    ||| (mi == m && ni < n)
    ||| (mi == m && ni == n && pi < p)
}

/// Loop invariant of the search: the recorded error/denominator pair beats
/// every admissible triple already visited.
pub open spec fn best_upto(
    hse: int,
    target: int,
    even_p: bool,
    e: int,
    den: int,
    m: int,
    n: int,
    p: int,
) -> bool {
    forall|mi: int, ni: int, pi: int|
        #[trigger] pll_ok(hse, even_p, mi, ni, pi) && lex_before(mi, ni, pi, m, n, p) ==> e * (mi
            * pi) <= pll_err(hse, target, mi, ni, pi) * den
}

/// Loop invariant of the search: no admissible triple has been visited yet.
pub open spec fn none_upto(hse: int, even_p: bool, m: int, n: int, p: int) -> bool {
    forall|mi: int, ni: int, pi: int|
        #[trigger] pll_ok(hse, even_p, mi, ni, pi) ==> !lex_before(mi, ni, pi, m, n, p)
}

/// Whether the current triple is admissible.
fn cand_ok(hse: u32, even_p: bool, m: u32, n: u32, p: u32) -> (r: bool)
    requires
        1 <= m <= PLL_M_MAX,
        PLL_N_MIN <= n <= PLL_N_MAX,
        1 <= p <= PLL_P_MAX,
    ensures
        r == pll_ok(hse as int, even_p, m as int, n as int, p as int),
{
    proof {
        assert((hse as int) * (n as int) <= 4294967295int * 512) by (nonlinear_arith)
            requires
                n <= 512u32,
        ;
        assert(((PLL_REF_MIN_HZ as int) * (m as int) <= 63000000int) && ((PLL_REF_MAX_HZ as int) * (
        m as int) <= 1008000000int) && ((PLL_VCO_MIN_HZ as int) * (m as int) <= 12096000000int) && (
        (PLL_VCO_MAX_HZ as int) * (m as int) <= 52668000000int)) by (nonlinear_arith)
            requires
                m <= 63u32,
                PLL_REF_MIN_HZ == 1000000u32,
                PLL_REF_MAX_HZ == 16000000u32,
                PLL_VCO_MIN_HZ == 192000000u32,
                PLL_VCO_MAX_HZ == 836000000u32,
        ;
    }
    let parity: bool = !even_p || p == 1 || p % 2 == 0;
    let hse64: u64 = hse as u64;
    let m64: u64 = m as u64;
    let vco: u64 = hse64 * (n as u64);
    parity && (PLL_REF_MIN_HZ as u64) * m64 <= hse64 && hse64 <= (PLL_REF_MAX_HZ as u64) * m64 && (
    PLL_VCO_MIN_HZ as u64) * m64 <= vco && vco <= (PLL_VCO_MAX_HZ as u64) * m64
}

/// Scaled distance of the current triple's output from `target`.
fn cand_err(hse: u32, target: u32, m: u32, n: u32, p: u32) -> (e: u64)
    requires
        1 <= m <= PLL_M_MAX,
        n <= PLL_N_MAX,
        1 <= p <= PLL_P_MAX,
    ensures
        e == pll_err(hse as int, target as int, m as int, n as int, p as int),
{
    proof {
        assert((m as int) * (p as int) <= 8064) by (nonlinear_arith)
            requires
                m <= 63u32,
                p <= 128u32,
        ;
        assert((hse as int) * (n as int) <= 4294967295int * 512) by (nonlinear_arith)
            requires
                n <= 512u32,
        ;
        assert((target as int) * ((m as int) * (p as int)) <= 4294967295int * 8064) by (
        nonlinear_arith)
            requires
                0 <= (m as int) * (p as int) <= 8064,
        ;
    }
    let a: u64 = (hse as u64) * (n as u64);
    let b: u64 = (target as u64) * ((m as u64) * (p as u64));
    if a >= b {
        a - b
    } else {
        b - a
    }
}

/// Strict cross-multiplied comparison `e1/d1 < e2/d2`, computed in 128 bits
/// so it cannot overflow.
fn frac_lt(e1: u64, d1: u64, e2: u64, d2: u64) -> (r: bool)
    ensures
        r == ((e1 as int) * (d2 as int) < (e2 as int) * (d1 as int)),
{
    proof {
        assert((e1 as int) * (d2 as int) <= 18446744073709551615int * 18446744073709551615int) by (
        nonlinear_arith);
        assert((e2 as int) * (d1 as int) <= 18446744073709551615int * 18446744073709551615int) by (
        nonlinear_arith);
    }
    (e1 as u128) * (d2 as u128) < (e2 as u128) * (d1 as u128)
}

/// Divider/multiplier triple selected for one PLL: the output frequency is
/// `crystal / divm * divn / divp`.
pub struct PllDividers {
    pub divm: u32,
    pub divn: u32,
    pub divp: u32,
}

/// Bounded iterative search over every admissible divider triple. Returns
/// a triple whose output is as close to `target` as any admissible triple
/// can come, provided that distance is within `tol` hertz; returns `None`
/// exactly when no admissible triple gets within `tol`.
#[verifier::loop_isolation(false)]
fn pll_search(hse: u32, target: u32, tol: u32, even_p: bool) -> (r: Option<PllDividers>)
    ensures
        match r {
            Some(d) => pll_ok(hse as int, even_p, d.divm as int, d.divn as int, d.divp as int)
                && within_tol(
                hse as int,
                target as int,
                tol as int,
                d.divm as int,
                d.divn as int,
                d.divp as int,
            ) && pll_best(hse as int, target as int, even_p, d.divm as int, d.divn as int, d.divp as int),
            None => forall|mi: int, ni: int, pi: int|
                #[trigger] pll_ok(hse as int, even_p, mi, ni, pi) ==> !within_tol(
                    hse as int,
                    target as int,
                    tol as int,
                    mi,
                    ni,
                    pi,
                ),
        },
{
    let mut found: bool = false;
    let mut bm: u32 = 0;
    let mut bn: u32 = 0;
    let mut bp: u32 = 0;
    let mut be: u64 = 0;
    let mut bden: u64 = 0;
    let mut m: u32 = 1;
    while m <= PLL_M_MAX
        invariant
            1 <= m <= PLL_M_MAX + 1,
            found ==> pll_ok(hse as int, even_p, bm as int, bn as int, bp as int) && lex_before(
                bm as int,
                bn as int,
                bp as int,
                m as int,
                PLL_N_MIN as int,
                1,
            ) && be == pll_err(hse as int, target as int, bm as int, bn as int, bp as int) && bden
                == (bm as int) * (bp as int) && best_upto(
                hse as int,
                target as int,
                even_p,
                be as int,
                bden as int,
                m as int,
                PLL_N_MIN as int,
                1,
            ),
            !found ==> none_upto(hse as int, even_p, m as int, PLL_N_MIN as int, 1),
        decreases PLL_M_MAX + 1 - m,
    {
        let mut n: u32 = PLL_N_MIN;
        while n <= PLL_N_MAX
            invariant
                PLL_N_MIN <= n <= PLL_N_MAX + 1,
                m <= PLL_M_MAX,
                found ==> pll_ok(hse as int, even_p, bm as int, bn as int, bp as int) && lex_before(
                    bm as int,
                    bn as int,
                    bp as int,
                    m as int,
                    n as int,
                    1,
                ) && be == pll_err(hse as int, target as int, bm as int, bn as int, bp as int)
                    && bden == (bm as int) * (bp as int) && best_upto(
                    hse as int,
                    target as int,
                    even_p,
                    be as int,
                    bden as int,
                    m as int,
                    n as int,
                    1,
                ),
                !found ==> none_upto(hse as int, even_p, m as int, n as int, 1),
            decreases PLL_N_MAX + 1 - n,
        {
            let mut p: u32 = 1;
            while p <= PLL_P_MAX
                invariant
                    1 <= p <= PLL_P_MAX + 1,
                    m <= PLL_M_MAX,
                    n <= PLL_N_MAX,
                    found ==> pll_ok(hse as int, even_p, bm as int, bn as int, bp as int)
                        && lex_before(bm as int, bn as int, bp as int, m as int, n as int, p as int)
                        && be == pll_err(hse as int, target as int, bm as int, bn as int, bp as int)
                        && bden == (bm as int) * (bp as int) && best_upto(
                        hse as int,
                        target as int,
                        even_p,
                        be as int,
                        bden as int,
                        m as int,
                        n as int,
                        p as int,
                    ),
                    !found ==> none_upto(hse as int, even_p, m as int, n as int, p as int),
                decreases PLL_P_MAX + 1 - p,
            {
                if cand_ok(hse, even_p, m, n, p) {
                    let e: u64 = cand_err(hse, target, m, n, p);
                    proof {
                        assert(1 <= (m as int) * (p as int) <= 8064) by (nonlinear_arith)
                            requires
                                1 <= m <= 63u32,
                                1 <= p <= 128u32,
                        ;
                    }
                    let den: u64 = (m as u64) * (p as u64);
                    let take_it: bool = if !found {
                        true
                    } else {
                        frac_lt(e, den, be, bden)
                    };
                    if take_it {
                        proof {
                            if found {
                                assert forall|mi: int, ni: int, pi: int|
                                    #[trigger] pll_ok(hse as int, even_p, mi, ni, pi) && lex_before(
                                        mi,
                                        ni,
                                        pi,
                                        m as int,
                                        n as int,
                                        p as int,
                                    ) implies (e as int) * (mi * pi) <= pll_err(
                                        hse as int,
                                        target as int,
                                        mi,
                                        ni,
                                        pi,
                                    ) * (den as int) by {
                                    assert(1 <= mi * pi) by (nonlinear_arith)
                                        requires
                                            1 <= mi,
                                            1 <= pi,
                                    ;
                                    assert(1 <= (bm as int) * (bp as int)) by (nonlinear_arith)
                                        requires
                                            1 <= bm,
                                            1 <= bp,
                                    ;
                                    lemma_frac_le_trans(
                                        e as int,
                                        den as int,
                                        be as int,
                                        bden as int,
                                        pll_err(hse as int, target as int, mi, ni, pi),
                                        mi * pi,
                                    );
                                }
                            }
                        }
                        found = true;
                        bm = m;
                        bn = n;
                        bp = p;
                        be = e;
                        bden = den;
                    }
                }
                p = p + 1;
            }
        n = n + 1;
        }
        m = m + 1;
    }
    if found {
        proof {
            assert forall|mi: int, ni: int, pi: int|
                #[trigger] pll_ok(hse as int, even_p, mi, ni, pi) implies lex_before(
                mi,
                ni,
                pi,
                m as int,
                PLL_N_MIN as int,
                1,
            ) by {}
            assert(1 <= (bm as int) * (bp as int) <= 8064) by (nonlinear_arith)
                requires
                    1 <= bm <= 63u32,
                    1 <= bp <= 128u32,
            ;
            assert((tol as int) * (bden as int) <= 4294967295int * 8064) by (nonlinear_arith)
                requires
                    0 <= bden <= 8064u64,
            ;
        }
        let lim: u64 = (tol as u64) * bden;
        if be <= lim {
            Some(PllDividers { divm: bm, divn: bn, divp: bp })
        } else {
            proof {
                assert forall|mi: int, ni: int, pi: int|
                    #[trigger] pll_ok(hse as int, even_p, mi, ni, pi) implies !within_tol(
                    hse as int,
                    target as int,
                    tol as int,
                    mi,
                    ni,
                    pi,
                ) by {
                    assert(1 <= mi * pi) by (nonlinear_arith)
                        requires
                            1 <= mi,
                            1 <= pi,
                    ;
                    lemma_frac_above_tol(
                        be as int,
                        bden as int,
                        pll_err(hse as int, target as int, mi, ni, pi),
                        mi * pi,
                        tol as int,
                    );
                }
            }
            None
        }
    } else {
        None
    }
}

/// Core-voltage operating points, highest first: higher system clocks
/// require a higher scale.
#[derive(Clone, Copy, PartialEq, Eq, Structural)]
pub enum VoltageScale {
    Scale0,
    Scale1,
    Scale2,
    Scale3,
}

/// Highest system-clock frequency each voltage scale supports, in hertz.
pub open spec fn vos_sys_limit_hz(v: VoltageScale) -> int {
    match v {
        VoltageScale::Scale0 => 480_000_000,
        VoltageScale::Scale1 => 400_000_000,
        VoltageScale::Scale2 => 300_000_000,
        VoltageScale::Scale3 => 200_000_000,
    }
}

fn vos_limit(v: VoltageScale) -> (r: u32)
    ensures
        r == vos_sys_limit_hz(v),
{
    match v {
        VoltageScale::Scale0 => 480_000_000,
        VoltageScale::Scale1 => 400_000_000,
        VoltageScale::Scale2 => 300_000_000,
        VoltageScale::Scale3 => 200_000_000,
    }
}

/// The system-configuration register block, owned as a unit resource.
pub struct Syscfg {}

/// The power controller before its operating point is frozen.
pub struct Pwr {
    vos: VoltageScale,
}

/// The frozen power configuration handed to the clock configurator.
pub struct PowerConfiguration {
    vos: VoltageScale,
}

impl Pwr {
    /// The operating point this controller will freeze at.
    pub closed spec fn vos(self) -> VoltageScale {
        self.vos
    }

    pub(crate) fn fresh() -> (r: Pwr)
        ensures
            r.vos() == VoltageScale::Scale1,
    {
        Pwr { vos: VoltageScale::Scale1 }
    }

    /// Selects the highest core-voltage operating point, required before
    /// arming a PLL for the full system-clock rate.
    pub fn vos0(self, _syscfg: &Syscfg) -> (r: Pwr)
        ensures
            r.vos() == VoltageScale::Scale0,
    {
        Pwr { vos: VoltageScale::Scale0 }
    }

    /// Commits the operating point. Consumes the controller: the voltage
    /// scale cannot be changed afterwards.
    pub fn freeze(self) -> (r: PowerConfiguration)
        ensures
            r.vos() == self.vos(),
    {
        PowerConfiguration { vos: self.vos }
    }
}

impl PowerConfiguration {
    pub closed spec fn vos(self) -> VoltageScale {
        self.vos
    }
}

/// Identity of a clock-gated peripheral.
#[derive(Clone, Copy, PartialEq, Eq, Structural)]
pub enum PeripheralId {
    GpioA,
    GpioB,
    GpioC,
    GpioD,
    GpioE,
    GpioG,
    Usart1,
}

/// One-time capability: the named peripheral's clock is enabled and the
/// peripheral may be claimed. Only the clock configurator mints these, one
/// per peripheral, and consuming one is irreversible.
pub struct PeripheralToken {
    id: PeripheralId,
}

impl PeripheralToken {
    pub closed spec fn id(self) -> PeripheralId {
        self.id
    }
}

/// The enable tokens minted by a successful clock freeze.
#[allow(non_snake_case)]
pub struct PeripheralRec {
    pub GPIOA: PeripheralToken,
    pub GPIOB: PeripheralToken,
    pub GPIOC: PeripheralToken,
    pub GPIOD: PeripheralToken,
    pub GPIOE: PeripheralToken,
    pub GPIOG: PeripheralToken,
    pub USART1: PeripheralToken,
}

/// Each token carries the identity of its own peripheral.
pub open spec fn tokens_ok(per: PeripheralRec) -> bool {
    &&& per.GPIOA.id() == PeripheralId::GpioA
    &&& per.GPIOB.id() == PeripheralId::GpioB
    &&& per.GPIOC.id() == PeripheralId::GpioC
    &&& per.GPIOD.id() == PeripheralId::GpioD
    &&& per.GPIOE.id() == PeripheralId::GpioE
    &&& per.GPIOG.id() == PeripheralId::GpioG
    &&& per.USART1.id() == PeripheralId::Usart1
}

/// Immutable derived frequencies for every clock domain, in hertz.
/// Created once by the configurator and shared read-only afterwards.
#[derive(Clone, Copy)]
pub struct CoreClocks {
    pub sys_ck: u32,
    pub hclk: u32,
    pub pclk1: u32,
    pub pclk2: u32,
    pub pll3_p: Option<u32>,
}

/// Everything a successful clock freeze yields: the clock description and
/// the per-peripheral enable tokens.
pub struct Ccdr {
    pub clocks: CoreClocks,
    pub peripheral: PeripheralRec,
}

/// Why clock configuration was refused. A silently wrong system clock is
/// worse than a boot failure, so every miss is reported.
#[derive(Clone, Copy, PartialEq, Eq, Structural, Debug)]
pub enum ClockError {
    /// No external oscillator frequency was supplied; this board cannot
    /// run from the internal oscillator.
    ExternalOscillatorRequired,
    /// No system-clock target was supplied.
    SysClockTargetMissing,
    /// The frozen voltage scale does not allow the requested system clock.
    VoltageScaleTooLow,
    /// No admissible divider triple reaches the system-clock target within
    /// one part in a thousand.
    SysClockUnreachable,
    /// No admissible divider triple reaches the audio target exactly.
    AudioClockUnreachable,
}

/// The reset-and-clock-control resource: a builder consumed by `freeze`.
/// Consuming it by value is what makes re-running configuration on the
/// same resource impossible to express.
pub struct Rcc {
    hse_hz: Option<u32>,
    sys_ck_hz: Option<u32>,
    pll3_p_hz: Option<u32>,
}

/// Output frequency of a divider triple, `hse * n / (m * p)`, truncated
/// to whole hertz.
fn pll_output(hse: u32, d: &PllDividers) -> (out: u32)
    requires
        1 <= d.divm <= PLL_M_MAX,
        d.divn <= PLL_N_MAX,
        1 <= d.divp <= PLL_P_MAX,
        (hse as int) * (d.divn as int) <= (PLL_VCO_MAX_HZ as int) * (d.divm as int),
    ensures
        out == ((hse as int) * (d.divn as int)) / ((d.divm as int) * (d.divp as int)),
{
    proof {
        assert((hse as int) * (d.divn as int) <= 4294967295int * 512) by (nonlinear_arith)
            requires
                d.divn <= 512u32,
        ;
        assert(1 <= (d.divm as int) * (d.divp as int) <= 8064) by (nonlinear_arith)
            requires
                1 <= d.divm <= 63u32,
                1 <= d.divp <= 128u32,
        ;
    }
    let num: u64 = (hse as u64) * (d.divn as u64);
    let den: u64 = (d.divm as u64) * (d.divp as u64);
    let q: u64 = num / den;
    proof {
        assert((num as int) <= 836000000int * (d.divm as int));
        assert((num as int) <= (den as int) * 836000000int) by (nonlinear_arith)
            requires
                (num as int) <= 836000000int * (d.divm as int),
                (den as int) == (d.divm as int) * (d.divp as int),
                1 <= d.divp,
                0 <= d.divm,
        ;
        vstd::arithmetic::div_mod::lemma_div_is_ordered(
            num as int,
            (den as int) * 836000000,
            den as int,
        );
        vstd::arithmetic::div_mod::lemma_div_multiples_vanish(836000000, den as int);
    }
    q as u32
}

impl Rcc {
    /// The external-oscillator frequency selected so far, if any.
    pub closed spec fn hse(self) -> Option<u32> {
        self.hse_hz
    }

    /// The system-clock target selected so far, if any.
    pub closed spec fn sys_ck_target(self) -> Option<u32> {
        self.sys_ck_hz
    }

    /// The audio-PLL output target selected so far, if any.
    pub closed spec fn pll3_p_target(self) -> Option<u32> {
        self.pll3_p_hz
    }

    pub(crate) fn fresh() -> (r: Rcc)
        ensures
            r.hse() is None,
            r.sys_ck_target() is None,
            r.pll3_p_target() is None,
    {
        Rcc { hse_hz: None, sys_ck_hz: None, pll3_p_hz: None }
    }

    /// Selects the external crystal, at `hz` hertz, as oscillator source.
    pub fn use_hse(self, hz: u32) -> (r: Rcc)
        ensures
            r.hse() == Some(hz),
            r.sys_ck_target() == self.sys_ck_target(),
            r.pll3_p_target() == self.pll3_p_target(),
    {
        Rcc { hse_hz: Some(hz), ..self }
    }

    /// Selects this board's crystal as the oscillator source.
    pub fn use_seed_crystal(self) -> (r: Rcc)
        ensures
            r.hse() == Some(CRYSTAL_FREQ_HZ),
            r.sys_ck_target() == self.sys_ck_target(),
            r.pll3_p_target() == self.pll3_p_target(),
    {
        self.use_hse(CRYSTAL_FREQ_HZ)
    }

    /// Sets the system-clock target frequency.
    pub fn sys_ck(self, hz: u32) -> (r: Rcc)
        ensures
            r.hse() == self.hse(),
            r.sys_ck_target() == Some(hz),
            r.pll3_p_target() == self.pll3_p_target(),
    {
        Rcc { sys_ck_hz: Some(hz), ..self }
    }

    /// Sets the audio-PLL output target frequency, to be met exactly.
    pub fn pll3_p_ck(self, hz: u32) -> (r: Rcc)
        ensures
            r.hse() == self.hse(),
            r.sys_ck_target() == self.sys_ck_target(),
            r.pll3_p_target() == Some(hz),
    {
        Rcc { pll3_p_hz: Some(hz), ..self }
    }

    /// What a successful freeze guarantees: the system clock is within one
    /// part in a thousand of the target - exactly on target whenever any
    /// admissible triple is exact - the bus clocks are the fixed divisions
    /// of it, the audio output equals its target exactly whatever the
    /// system-clock target was, and one enable token exists per peripheral.
    pub open spec fn freeze_ok_props(hse: int, target: int, pll3: Option<u32>, c: Ccdr) -> bool {
        &&& abs_i(c.clocks.sys_ck - target) <= target / 1000
        &&& (exists|mi: int, ni: int, pi: int|
            #[trigger] pll_ok(hse, true, mi, ni, pi) && hse * ni == target * (mi * pi))
            ==> c.clocks.sys_ck == target
        &&& (exists|mi: int, ni: int, pi: int|
            #[trigger] pll_ok(hse, true, mi, ni, pi) && within_tol(hse, target, target / 1000, mi, ni, pi)
                && pll_best(hse, target, true, mi, ni, pi) && c.clocks.sys_ck == (hse * ni) / (mi
                * pi))
        &&& c.clocks.hclk == c.clocks.sys_ck / 2
        &&& c.clocks.pclk1 == c.clocks.hclk / 2
        &&& c.clocks.pclk2 == c.clocks.hclk / 2
        &&& c.clocks.pll3_p == pll3
        &&& tokens_ok(c.peripheral)
    }

    /// Full specification of `freeze`: exactly one error per way the
    /// request can fail, and `freeze_ok_props` on success.
    pub open spec fn freeze_result_spec(
        self,
        pwrcfg: PowerConfiguration,
        r: Result<Ccdr, ClockError>,
    ) -> bool {
        match (self.hse(), self.sys_ck_target()) {
            (Option::None, _) => r == Err::<Ccdr, ClockError>(
                ClockError::ExternalOscillatorRequired,
            ),
            (Option::Some(_), Option::None) => r == Err::<Ccdr, ClockError>(
                ClockError::SysClockTargetMissing,
            ),
            (Option::Some(hse), Option::Some(target)) => if target > vos_sys_limit_hz(
                pwrcfg.vos(),
            ) {
                r == Err::<Ccdr, ClockError>(ClockError::VoltageScaleTooLow)
            } else if !sys_reachable(hse as int, target as int) {
                r == Err::<Ccdr, ClockError>(ClockError::SysClockUnreachable)
            } else if match self.pll3_p_target() {
                Option::Some(a) => !audio_reachable(hse as int, a as int),
                Option::None => false,
            } {
                r == Err::<Ccdr, ClockError>(ClockError::AudioClockUnreachable)
            } else {
                match r {
                    Ok(c) => Self::freeze_ok_props(hse as int, target as int, self.pll3_p_target(), c),
                    Err(_) => false,
                }
            },
        }
    }

    /// The irreversible commit step: runs the iterative search for the
    /// primary PLL and the exact search for the audio PLL, then freezes
    /// the derived frequencies. Consumes the builder and the power
    /// configuration; no further clock change can be expressed.
    pub fn freeze(self, pwrcfg: PowerConfiguration) -> (r: Result<Ccdr, ClockError>)
        ensures
            self.freeze_result_spec(pwrcfg, r),
    {
        let hse: u32 = match self.hse_hz {
            Option::Some(h) => h,
            Option::None => {
                return Err(ClockError::ExternalOscillatorRequired);
            },
        };
        let target: u32 = match self.sys_ck_hz {
            Option::Some(t) => t,
            Option::None => {
                return Err(ClockError::SysClockTargetMissing);
            },
        };
        if target > vos_limit(pwrcfg.vos) {
            return Err(ClockError::VoltageScaleTooLow);
        }
        let tol: u32 = target / 1000;
        let d1: PllDividers = match pll_search(hse, target, tol, true) {
            Option::Some(d) => d,
            Option::None => {
                return Err(ClockError::SysClockUnreachable);
            },
        };
        let sys_ck: u32 = pll_output(hse, &d1);
        proof {
            let hs: int = hse as int;
            let tg: int = target as int;
            let num: int = hs * (d1.divn as int);
            let den: int = (d1.divm as int) * (d1.divp as int);
            assert(1 <= den <= 8064) by (nonlinear_arith)
                requires
                    1 <= d1.divm <= 63u32,
                    1 <= d1.divp <= 128u32,
                    den == (d1.divm as int) * (d1.divp as int),
            ;
            assert(num <= tg * den + (tol as int) * den && tg * den - (tol as int) * den <= num);
            assert(tg * den + (tol as int) * den == den * (tg + tol)) by (nonlinear_arith);
            assert(tg * den - (tol as int) * den == den * (tg - tol)) by (nonlinear_arith);
            vstd::arithmetic::div_mod::lemma_div_is_ordered(num, den * (tg + tol), den);
            vstd::arithmetic::div_mod::lemma_div_is_ordered(den * (tg - tol), num, den);
            vstd::arithmetic::div_mod::lemma_div_multiples_vanish(tg + tol, den);
            vstd::arithmetic::div_mod::lemma_div_multiples_vanish(tg - tol, den);
            assert(abs_i(sys_ck - tg) <= tol);
            if exists|mi: int, ni: int, pi: int|
                #[trigger] pll_ok(hs, true, mi, ni, pi) && hs * ni == tg * (mi * pi) {
                let (mi, ni, pi): (int, int, int) = choose|mi: int, ni: int, pi: int|
                    #[trigger] pll_ok(hs, true, mi, ni, pi) && hs * ni == tg * (mi * pi);
                assert(pll_err(hs, tg, mi, ni, pi) == 0);
                assert(1 <= mi * pi) by (nonlinear_arith)
                    requires
                        1 <= mi,
                        1 <= pi,
                ;
                assert(pll_best(hs, tg, true, d1.divm as int, d1.divn as int, d1.divp as int));
                assert(pll_ok(hs, true, mi, ni, pi));
                assert(pll_err(hs, tg, d1.divm as int, d1.divn as int, d1.divp as int) * (mi * pi)
                    <= pll_err(hs, tg, mi, ni, pi) * den);
                assert(pll_err(hs, tg, mi, ni, pi) * den == 0) by (nonlinear_arith)
                    requires
                        pll_err(hs, tg, mi, ni, pi) == 0,
                ;
                assert(pll_err(hs, tg, d1.divm as int, d1.divn as int, d1.divp as int) * (mi * pi)
                    <= 0);
                assert(pll_err(hs, tg, d1.divm as int, d1.divn as int, d1.divp as int) == 0) by (
                nonlinear_arith)
                    requires
                        pll_err(hs, tg, d1.divm as int, d1.divn as int, d1.divp as int) * (mi * pi)
                            <= 0,
                        1 <= mi * pi,
                        0 <= pll_err(hs, tg, d1.divm as int, d1.divn as int, d1.divp as int),
                ;
                assert(num == den * tg) by (nonlinear_arith)
                    requires
                        num == tg * den,
                ;
                vstd::arithmetic::div_mod::lemma_div_multiples_vanish(tg, den);
            }
        }
        let pll3_p: Option<u32> = match self.pll3_p_hz {
            Option::None => Option::None,
            Option::Some(a) => {
                let d3: PllDividers = match pll_search(hse, a, 0, false) {
                    Option::Some(d) => d,
                    Option::None => {
                        return Err(ClockError::AudioClockUnreachable);
                    },
                };
                let out: u32 = pll_output(hse, &d3);
                proof {
                    let hs: int = hse as int;
                    let num: int = hs * (d3.divn as int);
                    let den: int = (d3.divm as int) * (d3.divp as int);
                    assert(1 <= den) by (nonlinear_arith)
                        requires
                            1 <= d3.divm,
                            1 <= d3.divp,
                            den == (d3.divm as int) * (d3.divp as int),
                    ;
                    assert(pll_err(hs, a as int, d3.divm as int, d3.divn as int, d3.divp as int)
                        <= 0);
                    assert(num == den * (a as int)) by (nonlinear_arith)
                        requires
                            num == (a as int) * den,
                    ;
                    vstd::arithmetic::div_mod::lemma_div_multiples_vanish(a as int, den);
                }
                Option::Some(out)
            },
        };
        let hclk: u32 = sys_ck / 2;
        let pclk: u32 = hclk / 2;
        Ok(
            Ccdr {
                clocks: CoreClocks { sys_ck, hclk, pclk1: pclk, pclk2: pclk, pll3_p },
                peripheral: PeripheralRec {
                    GPIOA: PeripheralToken { id: PeripheralId::GpioA },
                    GPIOB: PeripheralToken { id: PeripheralId::GpioB },
                    GPIOC: PeripheralToken { id: PeripheralId::GpioC },
                    GPIOD: PeripheralToken { id: PeripheralId::GpioD },
                    GPIOE: PeripheralToken { id: PeripheralId::GpioE },
                    GPIOG: PeripheralToken { id: PeripheralId::GpioG },
                    USART1: PeripheralToken { id: PeripheralId::Usart1 },
                },
            },
        )
    }
}

/// Law: the audio PLL output only depends on the audio target. Whatever
/// system-clock target the builder carried, a successful freeze delivers
/// exactly the requested audio frequency - so an audio target that is a
/// multiple of `AUDIO_BASE_HZ` yields an output that is the same multiple
/// of it, and retuning the system clock never perturbs audio timing.
pub proof fn lemma_audio_independent_of_sys(
    rcc: Rcc,
    pwrcfg: PowerConfiguration,
    r: Result<Ccdr, ClockError>,
)
    requires
        rcc.freeze_result_spec(pwrcfg, r),
    ensures
        match (r, rcc.pll3_p_target()) {
            (Ok(c), Option::Some(a)) => c.clocks.pll3_p == Some(a),
            _ => true,
        },
{
    match r {
        Ok(c) => {
            match (rcc.hse(), rcc.sys_ck_target()) {
                (Option::Some(h), Option::Some(t)) => {
                    assert(Rcc::freeze_ok_props(h as int, t as int, rcc.pll3_p_target(), c));
                    assert(c.clocks.pll3_p == rcc.pll3_p_target());
                },
                (Option::None, _) => {
                    assert(false);
                },
                (Option::Some(_), Option::None) => {
                    assert(false);
                },
            }
        },
        Err(_) => {},
    }
}

/// Configures this board's clock tree: the 16 MHz crystal drives the
/// primary PLL to a 480 MHz system clock (found by the iterative search,
/// and provably exact here), and a second, independent PLL output is set
/// to the audio master clock of 48 kHz x 256. Both resources are consumed
/// by value, so configuration cannot be re-run on them.
pub fn configure(pwr: Pwr, rcc: Rcc, syscfg: &Syscfg) -> (r: Result<Ccdr, ClockError>)
    ensures
        r matches Ok(c) && c.clocks.sys_ck == SYS_CK_TARGET_HZ && c.clocks.pll3_p == Some(
            AUDIO_BASE_HZ,
        ) && c.clocks.hclk == SYS_CK_TARGET_HZ / 2 && c.clocks.pclk1 == SYS_CK_TARGET_HZ / 4
            && c.clocks.pclk2 == SYS_CK_TARGET_HZ / 4 && tokens_ok(c.peripheral),
{
    let pwrcfg: PowerConfiguration = pwr.vos0(syscfg).freeze();
    let r: Result<Ccdr, ClockError> = rcc.use_seed_crystal().sys_ck(SYS_CK_TARGET_HZ).pll3_p_ck(
        AUDIO_BASE_HZ,
    ).freeze(pwrcfg);
    proof {
        assert(pll_ok(16000000, true, 1, 30, 1) && 16000000int * 30 == 480000000int * (1int * 1));
        assert(within_tol(16000000, 480000000, 480000000int / 1000, 1, 30, 1));
        assert(sys_reachable(16000000, 480000000));
        assert(pll_ok(16000000, false, 5, 96, 25) && 16000000int * 96 == 12288000int * (
        5int * 25));
        assert(audio_reachable(16000000, 12288000));
    }
    r
}

} // verus!
