//! Clock snapshot, divider mode and the clock gate shared by a pair of converters.
use vstd::prelude::*;

verus! {

/// RCC AHBENR: clock enable of ADC1 and ADC2.
pub const AHBENR_ADC12EN: u32 = 0x1000_0000;
/// RCC AHBENR: clock enable of ADC3 and ADC4.
pub const AHBENR_ADC34EN: u32 = 0x2000_0000;
/// Common CCR: the two-bit CKMODE field.
pub const CCR_CKMODE_MASK: u32 = 0x0003_0000;
/// Bit position of CKMODE.
pub const CCR_CKMODE_SHIFT: u32 = 16;

/// The frequencies, in hertz, of the bus clock (HCLK) and of the system clock.
#[derive(Clone, Copy, Debug, PartialEq, Eq, Structural)]
pub struct Clocks {
    pub hclk: u32,
    pub sysclk: u32,
}

impl Clocks {
    pub fn new(hclk: u32, sysclk: u32) -> (r: Clocks)
        ensures
            r.hclk == hclk,
            r.sysclk == sysclk,
    {
        Clocks { hclk, sysclk }
    }
}

/// Synchronous clock mode of the converter: HCLK divided by 1, 2 or 4.
#[derive(Clone, Copy, Debug, PartialEq, Eq, Structural)]
pub enum CkMode {
    SYNCDIV1,
    SYNCDIV2,
    SYNCDIV4,
}

/// The divisor applied to HCLK.
pub open spec fn ckmode_divisor(m: CkMode) -> u32 {
    match m {
        CkMode::SYNCDIV1 => 1,
        CkMode::SYNCDIV2 => 2,
        CkMode::SYNCDIV4 => 4,
    }
}

/// The value of the CKMODE field that selects the mode.
pub open spec fn ckmode_code(m: CkMode) -> u32 {
    match m {
        CkMode::SYNCDIV1 => 0b01,
        CkMode::SYNCDIV2 => 0b10,
        CkMode::SYNCDIV4 => 0b11,
    }
}

impl Default for CkMode {
    fn default() -> (r: Self)
        ensures
            r == CkMode::SYNCDIV2,
    {
        CkMode::SYNCDIV2
    }
}

impl CkMode {
    /// The divisor applied to HCLK.
    pub fn divisor(&self) -> (r: u32)
        ensures
            r == ckmode_divisor(*self),
    {
        match self {
            CkMode::SYNCDIV1 => 1,
            CkMode::SYNCDIV2 => 2,
            CkMode::SYNCDIV4 => 4,
        }
    }

    /// The value of the CKMODE field.
    pub fn code(&self) -> (r: u32)
        ensures
            r == ckmode_code(*self),
    {
        match self {
            CkMode::SYNCDIV1 => 0b01,
            CkMode::SYNCDIV2 => 0b10,
            CkMode::SYNCDIV4 => 0b11,
        }
    }
}

/// SYNCDIV1 may be used only when HCLK and the system clock are equal.
pub open spec fn well_defined_clocks(ckmode: CkMode, clocks: Clocks) -> bool {
    ckmode == CkMode::SYNCDIV1 ==> clocks.hclk == clocks.sysclk
}

/// Whether `ckmode` may be used with `clocks`.
pub fn clocks_welldefined(ckmode: CkMode, clocks: Clocks) -> (r: bool)
    ensures
        r == well_defined_clocks(ckmode, clocks),
{
    match ckmode {
        CkMode::SYNCDIV1 => clocks.hclk == clocks.sysclk,
        _ => true,
    }
}

/// The two pairs of converters; each pair shares one clock enable and one CCR.
#[derive(Clone, Copy, Debug, PartialEq, Eq, Structural)]
pub enum AdcPair {
    Adc12,
    Adc34,
}

/// The AHBENR bit that clocks a pair.
pub open spec fn pair_enable_bit(p: AdcPair) -> u32 {
    match p {
        AdcPair::Adc12 => AHBENR_ADC12EN,
        AdcPair::Adc34 => AHBENR_ADC34EN,
    }
}

/// The values of the two registers behind the clock gate of a pair: RCC AHBENR
/// and the pair's common control register CCR. The owner reads both before
/// [`SharedClock::enable`] and writes both back after it, AHBENR first, inside
/// one critical section.
#[derive(Clone, Copy, Debug, PartialEq, Eq, Structural)]
pub struct SharedClock {
    pub ahb_enr: u32,
    pub ccr: u32,
}

/// The CKMODE field of a CCR value.
pub open spec fn ckmode_field(ccr: u32) -> u32 {
    (ccr & CCR_CKMODE_MASK) >> CCR_CKMODE_SHIFT
}

/// Whether the clock of the pair is enabled.
pub open spec fn gate_enabled(g: SharedClock, p: AdcPair) -> bool {
    g.ahb_enr & pair_enable_bit(p) != 0
}

/// The answer of the shared clock: an enabled clock agrees only with its own mode.
pub open spec fn gate_accepts(g: SharedClock, p: AdcPair, m: CkMode) -> bool {
    gate_enabled(g, p) ==> ckmode_field(g.ccr) == ckmode_code(m)
}

/// The shared clock after a request: unchanged when the clock was enabled, else enabled
/// with CKMODE set to the requested mode.
pub open spec fn gate_after(g: SharedClock, p: AdcPair, m: CkMode) -> SharedClock {
    if gate_enabled(g, p) {
        g
    } else {
        SharedClock {
            ahb_enr: g.ahb_enr | pair_enable_bit(p),
            ccr: (g.ccr & !CCR_CKMODE_MASK) | (ckmode_code(m) << CCR_CKMODE_SHIFT),
        }
    }
}

impl SharedClock {
    pub fn new(ahb_enr: u32, ccr: u32) -> (r: SharedClock)
        ensures
            r.ahb_enr == ahb_enr,
            r.ccr == ccr,
    {
        SharedClock { ahb_enr, ccr }
    }

    /// Whether the clock of the pair is enabled.
    pub fn is_enabled(&self, pair: AdcPair) -> (r: bool)
        ensures
            r == gate_enabled(*self, pair),
    {
        let bit = match pair {
            AdcPair::Adc12 => AHBENR_ADC12EN,
            AdcPair::Adc34 => AHBENR_ADC34EN,
        };
        self.ahb_enr & bit != 0
    }

    /// Enables the clock of the pair with the given mode. Returns true iff the
    /// clock was disabled, or was enabled already with the same mode.
    pub fn enable(&mut self, pair: AdcPair, ckmode: CkMode) -> (r: bool)
        ensures
            r == gate_accepts(*old(self), pair, ckmode),
            *final(self) == gate_after(*old(self), pair, ckmode),
    {
        let bit = match pair {
            AdcPair::Adc12 => AHBENR_ADC12EN,
            AdcPair::Adc34 => AHBENR_ADC34EN,
        };
        if self.ahb_enr & bit != 0 {
            return (self.ccr & CCR_CKMODE_MASK) >> CCR_CKMODE_SHIFT == ckmode.code();
        }
        self.ahb_enr = self.ahb_enr | bit;
        self.ccr = (self.ccr & !CCR_CKMODE_MASK) | (ckmode.code() << CCR_CKMODE_SHIFT);
        true
    }
}

/// Clock gate: a first request on a disabled gate succeeds and records its
/// mode; a second request then succeeds iff it asks for the same mode, and
/// leaves the registers as the first left them.
pub proof fn lemma_clock_gate_idempotent(g: SharedClock, p: AdcPair, m1: CkMode, m2: CkMode)
    requires
        !gate_enabled(g, p),
    ensures
        gate_accepts(g, p, m1),
        gate_enabled(gate_after(g, p, m1), p),
        ckmode_field(gate_after(g, p, m1).ccr) == ckmode_code(m1),
        gate_accepts(gate_after(g, p, m1), p, m2) <==> m1 == m2,
        gate_after(gate_after(g, p, m1), p, m2) == gate_after(g, p, m1),
{
    let e = g.ahb_enr;
    let b = pair_enable_bit(p);
    assert(b != 0);
    assert((e | b) & b != 0) by (bit_vector)
        requires b != 0;
    let c = g.ccr;
    let k = ckmode_code(m1);
    assert(k <= 3);
    assert((((c & !0x0003_0000u32) | (k << 16u32)) & 0x0003_0000u32) >> 16u32 == k) by (bit_vector)
        requires k <= 3;
}

} // verus!
