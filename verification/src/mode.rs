//! The clock mode cycle: three modes that follow one another in a ring, each
//! with the clock configuration that it stands for.

use vstd::prelude::*;
use crate::clock::{ClockConfig, ClockSource, PllSource};
use crate::system::{spec_delay_reload, System, SystemRes, TickSetup};

verus! {

/// One of the three clock modes.
#[derive(Clone, Copy, Debug, PartialEq, Eq, Structural)]
pub enum ClockMode {
    /// The internal oscillator alone: 8 MHz.
    Reset8MHz,
    /// The PLL at eight times the halved internal oscillator: 32 MHz.
    Medium32MHz,
    /// The PLL at sixteen times the halved internal oscillator: 64 MHz.
    High64MHz,
}

/// The timer-driven pause that is made when a mode is left.
#[derive(Clone, Copy, Debug, PartialEq, Eq, Structural)]
pub struct SettleDelay {
    /// Length of the pause in milliseconds of a clock of `hclk` Hz.
    pub millis: u32,
    /// The clock frequency, in Hz, that the pause is computed for.
    pub hclk: u32,
}

impl ClockMode {
    /// The mode that follows this one.
    pub open spec fn spec_next(self) -> ClockMode {
        match self {
            ClockMode::Reset8MHz => ClockMode::Medium32MHz,
            ClockMode::Medium32MHz => ClockMode::High64MHz,
            ClockMode::High64MHz => ClockMode::Reset8MHz,
        }
    }

    /// The clock configuration that this mode stands for.
    pub open spec fn spec_config(self) -> ClockConfig {
        match self {
            ClockMode::Reset8MHz => ClockConfig {
                source: ClockSource::Internal8MHz,
                pll_source: PllSource::HalfInternal,
                multiplier_code: 0b0000,
                bus_divider: 0b0000,
                prediv: 0b000,
            },
            ClockMode::Medium32MHz => ClockConfig {
                source: ClockSource::Pll,
                pll_source: PllSource::HalfInternal,
                multiplier_code: 0b0110,
                bus_divider: 0b0000,
                prediv: 0b000,
            },
            ClockMode::High64MHz => ClockConfig {
                source: ClockSource::Pll,
                pll_source: PllSource::HalfInternal,
                multiplier_code: 0b1110,
                bus_divider: 0b0000,
                prediv: 0b000,
            },
        }
    }

    /// The frequency, in Hz, that this mode is named after.
    pub open spec fn spec_nominal_hz(self) -> int {
        match self {
            ClockMode::Reset8MHz => 8_000_000,
            ClockMode::Medium32MHz => 32_000_000,
            ClockMode::High64MHz => 64_000_000,
        }
    }

    /// The pause that is made when this mode is left.
    ///
    /// The clock argument on leaving the 64 MHz mode is ten times that
    /// mode's frequency, so that pause lasts ten times its nominal 20 ms.
    /// The board has always been run this way; a hardened build should pass
    /// 64 MHz here.
    pub open spec fn spec_settle_delay(self) -> SettleDelay {
        match self {
            ClockMode::Reset8MHz => SettleDelay { millis: 50, hclk: 8_000_000 },
            ClockMode::Medium32MHz => SettleDelay { millis: 50, hclk: 32_000_000 },
            ClockMode::High64MHz => SettleDelay { millis: 20, hclk: 640_000_000 },
        }
    }

    /// Returns the mode that follows this one.
    pub fn next(self) -> (m: ClockMode)
        ensures
            m == self.spec_next(),
    {
        match self {
            ClockMode::Reset8MHz => ClockMode::Medium32MHz,
            ClockMode::Medium32MHz => ClockMode::High64MHz,
            ClockMode::High64MHz => ClockMode::Reset8MHz,
        }
    }

    /// Returns the clock configuration that this mode stands for.
    pub fn config(self) -> (c: ClockConfig)
        ensures
            c == self.spec_config(),
    {
        match self {
            ClockMode::Reset8MHz => ClockConfig {
                source: ClockSource::Internal8MHz,
                pll_source: PllSource::HalfInternal,
                multiplier_code: 0b0000,
                bus_divider: 0b0000,
                prediv: 0b000,
            },
            ClockMode::Medium32MHz => ClockConfig {
                source: ClockSource::Pll,
                pll_source: PllSource::HalfInternal,
                multiplier_code: 0b0110,
                bus_divider: 0b0000,
                prediv: 0b000,
            },
            ClockMode::High64MHz => ClockConfig {
                source: ClockSource::Pll,
                pll_source: PllSource::HalfInternal,
                multiplier_code: 0b1110,
                bus_divider: 0b0000,
                prediv: 0b000,
            },
        }
    }

    /// Returns the pause that is made when this mode is left.
    pub fn settle_delay(self) -> (d: SettleDelay)
        ensures
            d == self.spec_settle_delay(),
    {
        match self {
            ClockMode::Reset8MHz => SettleDelay { millis: 50, hclk: 8_000_000 },
            ClockMode::Medium32MHz => SettleDelay { millis: 50, hclk: 32_000_000 },
            ClockMode::High64MHz => SettleDelay { millis: 20, hclk: 640_000_000 },
        }
    }
}

/// The configuration that a rotation into `next` makes of `config`: the
/// source, the PLL input and the multiplier code of `next`, with the
/// dividers left as they are.
pub open spec fn spec_rotated(config: ClockConfig, next: ClockMode) -> ClockConfig {
    ClockConfig {
        source: next.spec_config().source,
        pll_source: next.spec_config().pll_source,
        multiplier_code: next.spec_config().multiplier_code,
        ..config
    }
}

/// Rotates to the mode that follows `mode`, on a confirmed double click:
/// writes that mode's source and PLL fields into the configuration of `res`,
/// and returns the new mode with the timer setup of the pause that is made
/// on leaving `mode`.
pub fn rotate(mode: ClockMode, res: &mut SystemRes) -> (out: (ClockMode, TickSetup))
    ensures
        out.0 == mode.spec_next(),
        final(res).config == spec_rotated(old(res).config, mode.spec_next()),
        final(res).tree == old(res).tree,
        old(res).config.wf() ==> final(res).config.valid(),
        out.1 == (TickSetup {
            current: 0,
            reload: spec_delay_reload(
                mode.spec_settle_delay().millis,
                mode.spec_settle_delay().hclk,
            ) as u32,
            tick_interrupt: true,
            enabled: true,
        }),
{
    let next = mode.next();
    let target = next.config();
    res.config.source = target.source;
    res.config.pll_source = target.pll_source;
    res.config.multiplier_code = target.multiplier_code;
    let pause = mode.settle_delay();
    (next, System::delay(pause.millis, pause.hclk))
}

/// The successor function is a ring through all three modes: a mode, its
/// successor and the successor of that are pairwise different, and the third
/// successor is the mode itself.
pub proof fn lemma_next_is_a_ring(m: ClockMode)
    ensures
        m.spec_next() != m,
        m.spec_next().spec_next() != m,
        m.spec_next().spec_next() != m.spec_next(),
        m.spec_next().spec_next().spec_next() == m,
{
}

/// From any mode, every mode is reached within two steps.
pub proof fn lemma_next_visits_all(m: ClockMode, target: ClockMode)
    ensures
        target == m || target == m.spec_next() || target == m.spec_next().spec_next(),
{
}

/// The configuration of every mode is valid and runs the core at exactly the
/// frequency that the mode is named after.
pub proof fn lemma_mode_frequency(m: ClockMode)
    ensures
        m.spec_config().valid(),
        m.spec_config().spec_frequency() == m.spec_nominal_hz(),
{
}

/// Rotating a configuration whose dividers are zero into a mode gives
/// exactly the configuration of that mode.
pub proof fn lemma_rotated_is_mode_config(config: ClockConfig, next: ClockMode)
    requires
        config.bus_divider == 0,
        config.prediv == 0,
    ensures
        spec_rotated(config, next) == next.spec_config(),
{
}

/// Except for the 64 MHz mode, the pause on leaving a mode is computed for
/// the frequency that the mode runs at.
pub proof fn lemma_settle_delay_clock(m: ClockMode)
    ensures
        m != ClockMode::High64MHz ==> m.spec_settle_delay().hclk == m.spec_nominal_hz(),
        m == ClockMode::High64MHz ==> m.spec_settle_delay().hclk == 10 * m.spec_nominal_hz(),
{
}

} // verus!
