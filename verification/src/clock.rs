//! Clock configuration, and the two calculators that every other part of the
//! library relies on: the effective core frequency of a configuration and the
//! flash wait-state code that a frequency needs.

use vstd::prelude::*;
use crate::consts::{HSE_CLK, HSI_CLK, MAX_HCLK};

verus! {

/// Highest frequency, in Hz, that flash can be read at with no wait state.
pub const ZERO_WAIT_MAX: u32 = 24_000_000;

/// Highest frequency, in Hz, that flash can be read at with one wait state.
pub const ONE_WAIT_MAX: u32 = 48_000_000;

/// Largest value of the 4-bit multiplier field.
pub const MULTIPLIER_CODE_MAX: u32 = 0b1111;

/// Largest value of the 4-bit bus divider field.
pub const BUS_DIVIDER_MAX: u32 = 0b1111;

/// Largest value of the 3-bit pre-divider field.
pub const PREDIV_MAX: u32 = 0b111;

/// The source that drives the system clock.
#[derive(Clone, Copy, Debug, PartialEq, Eq, Structural)]
pub enum ClockSource {
    /// The internal 8 MHz RC oscillator.
    Internal8MHz,
    /// The external high-speed clock input.
    External,
    /// The output of the PLL.
    Pll,
}

/// The input of the PLL.
#[derive(Clone, Copy, Debug, PartialEq, Eq, Structural)]
pub enum PllSource {
    /// The internal oscillator, halved.
    HalfInternal,
    /// The external clock input, divided by the pre-divider.
    ExternalDiv,
}

/// A configuration of the clock tree.
///
/// `multiplier_code` and `pll_source` only matter while `source` is
/// [`ClockSource::Pll`]. A multiplier code `m` stands for a factor of `m + 2`.
#[derive(Clone, Copy, Debug, PartialEq, Eq, Structural)]
pub struct ClockConfig {
    /// What drives the system clock.
    pub source: ClockSource,
    /// What feeds the PLL.
    pub pll_source: PllSource,
    /// Encoded PLL multiplication factor (4 bits).
    pub multiplier_code: u32,
    /// Encoded bus clock divider (4 bits).
    pub bus_divider: u32,
    /// Encoded pre-divider of the external clock on its way to the PLL (3 bits).
    pub prediv: u32,
}

impl ClockSource {
    /// The bit pattern of the selector field for this source.
    pub open spec fn spec_bits(self) -> u32 {
        match self {
            ClockSource::Internal8MHz => 0b00,
            ClockSource::External => 0b01,
            ClockSource::Pll => 0b10,
        }
    }

    /// Returns the bit pattern of the selector field for this source.
    pub fn bits(self) -> (b: u32)
        ensures
            b == self.spec_bits(),
    {
        match self {
            ClockSource::Internal8MHz => 0b00,
            ClockSource::External => 0b01,
            ClockSource::Pll => 0b10,
        }
    }

    /// Decodes a selector field. Patterns above `0b10` name no source.
    pub fn from_bits(bits: u32) -> (s: Option<ClockSource>)
        ensures
            s is Some <==> bits <= 0b10,
            s matches Some(src) ==> src.spec_bits() == bits,
    {
        if bits == 0b00 {
            Some(ClockSource::Internal8MHz)
        } else if bits == 0b01 {
            Some(ClockSource::External)
        } else if bits == 0b10 {
            Some(ClockSource::Pll)
        } else {
            None
        }
    }
}

impl PllSource {
    /// The bit pattern of the PLL input selector for this source.
    pub open spec fn spec_bits(self) -> u32 {
        match self {
            PllSource::HalfInternal => 0b00,
            PllSource::ExternalDiv => 0b01,
        }
    }

    /// Returns the bit pattern of the PLL input selector for this source.
    pub fn bits(self) -> (b: u32)
        ensures
            b == self.spec_bits(),
    {
        match self {
            PllSource::HalfInternal => 0b00,
            PllSource::ExternalDiv => 0b01,
        }
    }

    /// Decodes a PLL input selector. Patterns above `0b01` are reserved.
    pub fn from_bits(bits: u32) -> (s: Option<PllSource>)
        ensures
            s is Some <==> bits <= 0b01,
            s matches Some(src) ==> src.spec_bits() == bits,
    {
        if bits == 0b00 {
            Some(PllSource::HalfInternal)
        } else if bits == 0b01 {
            Some(PllSource::ExternalDiv)
        } else {
            None
        }
    }
}

/// Frequency, in Hz, at the input of the PLL.
pub open spec fn spec_pll_input(pll_source: PllSource, prediv: u32) -> int {
    match pll_source {
        PllSource::HalfInternal => HSI_CLK as int / 2,
        PllSource::ExternalDiv => HSE_CLK as int / (prediv as int + 1),
    }
}

/// Effective core frequency, in Hz, of a clock tree that selects `source`
/// and, where that is the PLL, feeds it from `pll_source` through `prediv`
/// and multiplies by `multiplier_code + 2`.
pub open spec fn spec_hclk(
    source: ClockSource,
    pll_source: PllSource,
    multiplier_code: u32,
    prediv: u32,
) -> int {
    match source {
        ClockSource::Internal8MHz => HSI_CLK as int,
        ClockSource::External => HSE_CLK as int,
        ClockSource::Pll => spec_pll_input(pll_source, prediv) * (multiplier_code as int + 2),
    }
}

/// Flash wait-state code that a core frequency of `hclk` Hz needs.
pub open spec fn spec_wait_states(hclk: int) -> int {
    if hclk <= ZERO_WAIT_MAX as int {
        0
    } else if hclk <= ONE_WAIT_MAX as int {
        1
    } else {
        2
    }
}

/// The effective frequency of any clock tree whose multiplier code and
/// pre-divider fit their fields lies between the internal oscillator's
/// frequency and seventeen times the external clock's.
pub proof fn lemma_hclk_bounds(
    source: ClockSource,
    pll_source: PllSource,
    multiplier_code: u32,
    prediv: u32,
)
    requires
        multiplier_code <= MULTIPLIER_CODE_MAX,
        prediv <= PREDIV_MAX,
    ensures
        HSI_CLK as int <= spec_hclk(source, pll_source, multiplier_code, prediv) <= 17
            * HSE_CLK as int,
{
    let input = spec_pll_input(pll_source, prediv);
    let factor = multiplier_code as int + 2;
    assert(4_000_000 <= input <= 48_000_000) by {
        if pll_source is ExternalDiv {
            let d = prediv as int + 1;
            assert(48_000_000int / d <= 48_000_000 && 48_000_000int / d >= 6_000_000)
                by (nonlinear_arith)
                requires
                    1 <= d <= 8,
            ;
        }
    }
    assert(8_000_000 <= input * factor <= 816_000_000) by (nonlinear_arith)
        requires
            4_000_000 <= input <= 48_000_000,
            2 <= factor <= 17,
    ;
}

/// Computes the effective core frequency, in Hz, of a clock tree that selects
/// `source`, from the fields that are latched for it.
pub fn hclk_of(
    source: ClockSource,
    pll_source: PllSource,
    multiplier_code: u32,
    prediv: u32,
) -> (hclk: u32)
    requires
        multiplier_code <= MULTIPLIER_CODE_MAX,
        prediv <= PREDIV_MAX,
    ensures
        hclk as int == spec_hclk(source, pll_source, multiplier_code, prediv),
{
    proof {
        lemma_hclk_bounds(source, pll_source, multiplier_code, prediv);
    }
    match source {
        ClockSource::Internal8MHz => HSI_CLK,
        ClockSource::External => HSE_CLK,
        ClockSource::Pll => {
            let input: u32 = match pll_source {
                PllSource::HalfInternal => HSI_CLK / 2,
                PllSource::ExternalDiv => HSE_CLK / (prediv + 1),
            };
            input * (multiplier_code + 2)
        },
    }
}

/// Computes the flash wait-state code that a core frequency of `hclk` Hz needs.
pub fn wait_states_for(hclk: u32) -> (code: u32)
    ensures
        code as int == spec_wait_states(hclk as int),
{
    if hclk <= ZERO_WAIT_MAX {
        0b00
    } else if hclk <= ONE_WAIT_MAX {
        0b01
    } else {
        0b10
    }
}

impl ClockConfig {
    /// Every field fits the register field that it is written to.
    pub open spec fn wf(&self) -> bool {
        &&& self.multiplier_code <= MULTIPLIER_CODE_MAX
        &&& self.bus_divider <= BUS_DIVIDER_MAX
        &&& self.prediv <= PREDIV_MAX
    }

    /// The frequency, in Hz, that the core runs at under this configuration.
    pub open spec fn spec_frequency(&self) -> int {
        spec_hclk(self.source, self.pll_source, self.multiplier_code, self.prediv)
    }

    /// The flash wait-state code that this configuration needs.
    pub open spec fn spec_latency(&self) -> int {
        spec_wait_states(self.spec_frequency())
    }

    /// The configuration is well formed and stays within the highest
    /// frequency that the hardware is specified for.
    pub open spec fn valid(&self) -> bool {
        &&& self.wf()
        &&& self.spec_frequency() <= MAX_HCLK as int
    }

    /// Computes the frequency, in Hz, that the core runs at under this
    /// configuration.
    pub fn frequency(&self) -> (hclk: u32)
        requires
            self.wf(),
        ensures
            hclk as int == self.spec_frequency(),
    {
        hclk_of(self.source, self.pll_source, self.multiplier_code, self.prediv)
    }

    /// Computes the flash wait-state code that this configuration needs.
    pub fn latency(&self) -> (code: u32)
        requires
            self.wf(),
        ensures
            code as int == self.spec_latency(),
    {
        wait_states_for(self.frequency())
    }

    /// Tells whether every field fits its register field.
    pub fn is_wf(&self) -> (b: bool)
        ensures
            b == self.wf(),
    {
        self.multiplier_code <= MULTIPLIER_CODE_MAX && self.bus_divider <= BUS_DIVIDER_MAX
            && self.prediv <= PREDIV_MAX
    }

    /// Tells whether the configuration is well formed and within the
    /// hardware's frequency limit.
    pub fn is_valid(&self) -> (b: bool)
        ensures
            b == self.valid(),
    {
        self.is_wf() && self.frequency() <= MAX_HCLK
    }
}

/// The PLL's input and multiplier code are meaningless unless the PLL is the
/// clock source: two configurations with the same source other than the PLL
/// run at the same frequency.
pub proof fn lemma_pll_fields_matter_for_pll_only(a: ClockConfig, b: ClockConfig)
    requires
        a.source == b.source,
        a.source != ClockSource::Pll,
    ensures
        a.spec_frequency() == b.spec_frequency(),
        a.spec_latency() == b.spec_latency(),
{
}

/// The wait-state code never decreases as the frequency rises.
pub proof fn lemma_wait_states_monotonic(low: int, high: int)
    requires
        low <= high,
    ensures
        spec_wait_states(low) <= spec_wait_states(high),
{
}

/// With the clock source, the PLL input and the pre-divider held fixed, a
/// larger multiplier code never yields a lower frequency, and so never a
/// lower wait-state code.
pub proof fn lemma_latency_monotonic_in_multiplier(a: ClockConfig, b: ClockConfig)
    requires
        a.wf(),
        b.wf(),
        a.source == b.source,
        a.pll_source == b.pll_source,
        a.prediv == b.prediv,
        a.multiplier_code <= b.multiplier_code,
    ensures
        a.spec_frequency() <= b.spec_frequency(),
        a.spec_latency() <= b.spec_latency(),
{
    let input = spec_pll_input(a.pll_source, a.prediv);
    let fa = a.multiplier_code as int + 2;
    let fb = b.multiplier_code as int + 2;
    assert(input >= 0) by {
        if a.pll_source is ExternalDiv {
            let d = a.prediv as int + 1;
            assert(48_000_000int / d >= 0) by (nonlinear_arith)
                requires
                    1 <= d,
            ;
        }
    }
    assert(input * fa <= input * fb) by (nonlinear_arith)
        requires
            input >= 0,
            fa <= fb,
    ;
    lemma_wait_states_monotonic(a.spec_frequency(), b.spec_frequency());
}

} // verus!
