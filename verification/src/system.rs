//! The clock tree controller: the ordered steps that bring the clock tree
//! back to its defaults and that apply a configuration to it, the frequency
//! and wait-state calculators on the system's resource record, and the timer
//! setup of a millisecond pause.
//!
//! The controller touches no hardware. It hands out the steps; whoever owns
//! the registers takes them, in order.

use vstd::prelude::*;
use crate::clock::{
    hclk_of, lemma_hclk_bounds, spec_hclk, spec_wait_states, ClockConfig, ClockSource,
    PllSource,
};
use crate::consts::{HSI_CLK, SWO_BAUD_RATE};
use crate::swo::{prescaler, spec_prescaler};
use crate::tree::{
    lemma_permitted_steps_keep_safe, lemma_steps_concat, spec_steps_wf, ClockStep, ClockTree,
};

verus! {

/// Wait-state code that is enough for every frequency: written before the
/// frequency may rise.
pub const SAFE_LATENCY: u32 = 0b10;

/// Length, in milliseconds, of the pause that lets the clock tree settle.
pub const SETTLE_MILLIS: u32 = 50;

/// Divisor that turns a core frequency in Hz into timer counts per
/// millisecond: the timer counts an eighth of the core clock.
pub const DELAY_CLOCK_DIVISOR: u32 = 8000;

/// An error returned when a receiver has missed too many ticks.
#[derive(Clone, Copy, Debug, PartialEq, Eq, Structural)]
pub struct TickOverflow;

/// The system's resource record: what the clock tree holds, as last read
/// back, and the configuration that is to be applied next.
#[derive(Clone, Copy, Debug, PartialEq, Eq, Structural)]
pub struct SystemRes {
    /// What the clock tree holds.
    pub tree: ClockTree,
    /// The configuration to apply.
    pub config: ClockConfig,
}

/// What to program the system timer with.
#[derive(Clone, Copy, Debug, PartialEq, Eq, Structural)]
pub struct TickSetup {
    /// Value to write to the timer's current count.
    pub current: u32,
    /// Value to write to the timer's reload register.
    pub reload: u32,
    /// Whether counting down to zero raises the timer interrupt.
    pub tick_interrupt: bool,
    /// Whether the timer counts.
    pub enabled: bool,
}

/// The clock tree controller.
#[derive(Clone, Copy, Debug, PartialEq, Eq, Structural)]
pub struct System {}

impl SystemRes {
    /// Both the tree and the configuration are well formed.
    pub open spec fn wf(&self) -> bool {
        &&& self.tree.wf()
        &&& self.config.wf()
    }

    /// Tells whether both the tree and the configuration are well formed.
    pub fn is_wf(&self) -> (b: bool)
        ensures
            b == self.wf(),
    {
        self.tree.is_wf() && self.config.is_wf()
    }
}

/// Timer reload value of a pause of `millis` milliseconds at a core clock of
/// `hclk` Hz.
pub open spec fn spec_delay_reload(millis: u32, hclk: u32) -> int {
    millis as int * (hclk as int / DELAY_CLOCK_DIVISOR as int)
}

impl System {
    /// The steps that bring the clock tree back to its defaults: make sure
    /// of the internal oscillator, put the switch and the dividers back,
    /// switch the PLL off and clear its fields, switch the external
    /// oscillator off, set the diagnostic output to the internal
    /// oscillator's frequency, and let the tree settle.
    pub open spec fn spec_reset_plan() -> Seq<ClockStep> {
        seq![
            ClockStep::EnableInternalOscillator,
            ClockStep::RestoreSwitchDefaults,
            ClockStep::DisablePll,
            ClockStep::WritePllConfig { pll_source: PllSource::HalfInternal, multiplier_code: 0 },
            ClockStep::DisableExternalOscillator,
            ClockStep::UpdateSwoPrescaler(spec_prescaler(HSI_CLK) as u32),
            ClockStep::Delay { millis: SETTLE_MILLIS },
        ]
    }

    /// The frequency, in Hz, that the core runs at while the PLL is brought
    /// up for `config`: the PLL's fields hold what `config` asks for, and
    /// the switch is still on `running`, the source that drove the core
    /// before.
    pub open spec fn spec_hclk_before_switch(running: ClockSource, config: ClockConfig) -> int {
        spec_hclk(running, config.pll_source, config.multiplier_code, config.prediv)
    }

    /// The steps that bring the PLL up for `config` while `running` drives
    /// the core: program the PLL, set the diagnostic output for the
    /// frequency that the core runs at in the meantime, let the tree
    /// settle, and switch the PLL on.
    pub open spec fn spec_pll_plan(running: ClockSource, config: ClockConfig) -> Seq<ClockStep> {
        seq![
            ClockStep::WritePllConfig {
                pll_source: config.pll_source,
                multiplier_code: config.multiplier_code,
            },
            ClockStep::UpdateSwoPrescaler(
                spec_prescaler(Self::spec_hclk_before_switch(running, config) as u32) as u32,
            ),
            ClockStep::Delay { millis: SETTLE_MILLIS },
            ClockStep::EnablePll,
        ]
    }

    /// The steps that apply `config` while `running` drives the core: raise
    /// the flash wait states to the safe value, make sure of the internal
    /// oscillator, bring the PLL up where the configuration selects it,
    /// move the switch and the bus divider, and only then settle the wait
    /// states and the diagnostic output on what the new frequency needs.
    pub open spec fn spec_apply_plan(running: ClockSource, config: ClockConfig) -> Seq<
        ClockStep,
    > {
        seq![ClockStep::SetFlashLatency(SAFE_LATENCY), ClockStep::EnableInternalOscillator] + (
        if config.source == ClockSource::Pll {
            Self::spec_pll_plan(running, config)
        } else {
            Seq::<ClockStep>::empty()
        }) + seq![
            ClockStep::WriteSwitch { source: config.source, bus_divider: config.bus_divider },
            ClockStep::SetFlashLatency(config.spec_latency() as u32),
            ClockStep::UpdateSwoPrescaler(
                spec_prescaler(config.spec_frequency() as u32) as u32,
            ),
        ]
    }

    /// Creates the controller.
    pub fn new() -> (system: System)
        ensures
            system == (System {  }),
    {
        System {  }
    }

    /// Returns the steps that apply the configuration of `res` to its clock
    /// tree, in the order in which they have to be taken.
    pub fn apply_clock_config(res: &SystemRes) -> (steps: Vec<ClockStep>)
        requires
            res.config.valid(),
        ensures
            steps@ == Self::spec_apply_plan(res.tree.switch, res.config),
            spec_steps_wf(steps@),
    {
        let config = res.config;
        let mut steps: Vec<ClockStep> = Vec::new();
        steps.push(ClockStep::SetFlashLatency(SAFE_LATENCY));
        steps.push(ClockStep::EnableInternalOscillator);
        let via_pll = match config.source {
            ClockSource::Pll => true,
            _ => false,
        };
        if via_pll {
            steps.push(
                ClockStep::WritePllConfig {
                    pll_source: config.pll_source,
                    multiplier_code: config.multiplier_code,
                },
            );
            proof {
                lemma_hclk_bounds(
                    res.tree.switch,
                    config.pll_source,
                    config.multiplier_code,
                    config.prediv,
                );
            }
            let hclk = hclk_of(
                res.tree.switch,
                config.pll_source,
                config.multiplier_code,
                config.prediv,
            );
            steps.push(ClockStep::UpdateSwoPrescaler(prescaler(hclk)));
            steps.push(ClockStep::Delay { millis: SETTLE_MILLIS });
            steps.push(ClockStep::EnablePll);
        }
        steps.push(
            ClockStep::WriteSwitch { source: config.source, bus_divider: config.bus_divider },
        );
        steps.push(ClockStep::SetFlashLatency(config.latency()));
        proof {
            lemma_hclk_bounds(
                config.source,
                config.pll_source,
                config.multiplier_code,
                config.prediv,
            );
        }
        steps.push(ClockStep::UpdateSwoPrescaler(prescaler(config.frequency())));
        assert(steps@ =~= Self::spec_apply_plan(res.tree.switch, config));
        steps
    }

    /// Returns the steps that bring the clock tree back to its defaults, in
    /// the order in which they have to be taken.
    pub fn reset_rcc() -> (steps: Vec<ClockStep>)
        ensures
            steps@ == Self::spec_reset_plan(),
            spec_steps_wf(steps@),
    {
        let mut steps: Vec<ClockStep> = Vec::new();
        steps.push(ClockStep::EnableInternalOscillator);
        steps.push(ClockStep::RestoreSwitchDefaults);
        steps.push(ClockStep::DisablePll);
        steps.push(
            ClockStep::WritePllConfig { pll_source: PllSource::HalfInternal, multiplier_code: 0 },
        );
        steps.push(ClockStep::DisableExternalOscillator);
        steps.push(ClockStep::UpdateSwoPrescaler(prescaler(HSI_CLK)));
        steps.push(ClockStep::Delay { millis: SETTLE_MILLIS });
        assert(steps@ =~= Self::spec_reset_plan());
        steps
    }

    /// Computes the flash wait-state code that the configuration of `res`
    /// needs.
    pub fn calculate_latency(res: &SystemRes) -> (code: u32)
        requires
            res.config.wf(),
        ensures
            code as int == res.config.spec_latency(),
            code as int == spec_wait_states(
                spec_hclk(
                    res.config.source,
                    res.config.pll_source,
                    res.config.multiplier_code,
                    res.config.prediv,
                ),
            ),
    {
        res.config.latency()
    }

    /// Computes the frequency, in Hz, that the core runs at, from what the
    /// clock tree of `res` holds and the pre-divider of its configuration.
    pub fn calculate_hclk(res: &SystemRes) -> (hclk: u32)
        requires
            res.wf(),
        ensures
            hclk as int == res.tree.spec_hclk(res.config.prediv),
            hclk as int == spec_hclk(
                res.tree.switch,
                res.tree.pll_source,
                res.tree.multiplier_code,
                res.config.prediv,
            ),
    {
        hclk_of(res.tree.switch, res.tree.pll_source, res.tree.multiplier_code, res.config.prediv)
    }

    /// Returns the timer setup of a pause of `millis` milliseconds at a core
    /// clock of `hclk` Hz: count from zero, reload after `millis` times an
    /// eight-thousandth of `hclk` counts, raise the interrupt when the count
    /// runs out.
    pub fn delay(millis: u32, hclk: u32) -> (setup: TickSetup)
        requires
            spec_delay_reload(millis, hclk) <= u32::MAX,
        ensures
            setup == (TickSetup {
                current: 0,
                reload: spec_delay_reload(millis, hclk) as u32,
                tick_interrupt: true,
                enabled: true,
            }),
    {
        TickSetup {
            current: 0,
            reload: millis * (hclk / DELAY_CLOCK_DIVISOR),
            tick_interrupt: true,
            enabled: true,
        }
    }

    /// Returns the timer setup of a pause like [`System::delay`], or nothing
    /// where the reload value does not fit 32 bits.
    pub fn checked_delay(millis: u32, hclk: u32) -> (setup: Option<TickSetup>)
        ensures
            setup is Some <==> spec_delay_reload(millis, hclk) <= u32::MAX,
            setup matches Some(s) ==> s == (TickSetup {
                current: 0,
                reload: spec_delay_reload(millis, hclk) as u32,
                tick_interrupt: true,
                enabled: true,
            }),
    {
        match millis.checked_mul(hclk / DELAY_CLOCK_DIVISOR) {
            Some(_) => Some(Self::delay(millis, hclk)),
            None => None,
        }
    }
}

/// From any state of the clock tree, every step of the reset may be taken
/// when its turn comes, and the reset leaves the tree safe and at its
/// defaults: the core on the internal oscillator, all dividers at one, the
/// PLL off with its fields cleared, the external oscillator off, and the
/// diagnostic output set for the internal oscillator's frequency, which is
/// the frequency that the core then runs at. The flash wait states are left
/// as they were.
pub proof fn lemma_reset_reaches_defaults(tree: ClockTree, prediv: u32)
    ensures
        tree.spec_permits_all(System::spec_reset_plan(), prediv),
        tree.spec_after_all(System::spec_reset_plan()) == (ClockTree {
            internal_on: true,
            external_on: false,
            pll_on: false,
            switch: ClockSource::Internal8MHz,
            bus_divider: 0,
            apb1_divider: 0,
            apb2_divider: 0,
            pll_source: PllSource::HalfInternal,
            multiplier_code: 0,
            wait_states: tree.wait_states,
            swo_prescaler: spec_prescaler(HSI_CLK) as u32,
        }),
        tree.spec_after_all(System::spec_reset_plan()).spec_safe(prediv),
        tree.spec_after_all(System::spec_reset_plan()).spec_legible(prediv),
{
    reveal_with_fuel(ClockTree::spec_after_all, 8);
    reveal_with_fuel(ClockTree::spec_permits_all, 8);
}

/// The configuration draws on the external clock, directly or through the
/// PLL.
pub open spec fn spec_needs_external(config: ClockConfig) -> bool {
    config.source == ClockSource::External || (config.source == ClockSource::Pll
        && config.pll_source == PllSource::ExternalDiv)
}

/// The tree that applying `config` to `tree` leads to.
pub open spec fn spec_applied(tree: ClockTree, config: ClockConfig) -> ClockTree {
    let via_pll = config.source == ClockSource::Pll;
    ClockTree {
        internal_on: true,
        pll_on: tree.pll_on || via_pll,
        switch: config.source,
        bus_divider: config.bus_divider,
        pll_source: if via_pll {
            config.pll_source
        } else {
            tree.pll_source
        },
        multiplier_code: if via_pll {
            config.multiplier_code
        } else {
            tree.multiplier_code
        },
        wait_states: config.spec_latency() as u32,
        swo_prescaler: spec_prescaler(config.spec_frequency() as u32) as u32,
        ..tree
    }
}

/// Where the PLL is off if the configuration selects it, and the external
/// clock is running if the configuration draws on it, every step of
/// applying the configuration may be taken when its turn comes: the wait
/// states are raised before the frequency can rise and lowered only after
/// it has changed. The steps leave the tree safe, with the core on the
/// configured source at the configured frequency, exactly the wait states
/// that this frequency needs, and the diagnostic output set for it.
pub proof fn lemma_apply_reaches_config(tree: ClockTree, config: ClockConfig)
    requires
        config.wf(),
        config.source == ClockSource::Pll ==> !tree.pll_on,
        spec_needs_external(config) ==> tree.external_on,
    ensures
        ({
            let plan = System::spec_apply_plan(tree.switch, config);
            let after = tree.spec_after_all(plan);
            &&& tree.spec_permits_all(plan, config.prediv)
            &&& after == spec_applied(tree, config)
            &&& after.spec_hclk(config.prediv) == config.spec_frequency()
            &&& after.wait_states == spec_wait_states(config.spec_frequency())
            &&& after.swo_prescaler == config.spec_frequency() / (SWO_BAUD_RATE as int) - 1
            &&& after.spec_safe(config.prediv)
            &&& after.spec_legible(config.prediv)
        }),
{
    lemma_hclk_bounds(config.source, config.pll_source, config.multiplier_code, config.prediv);
    reveal_with_fuel(ClockTree::spec_after_all, 10);
    reveal_with_fuel(ClockTree::spec_permits_all, 10);
}

/// While the PLL is brought up, the diagnostic output stays readable: the
/// update before the PLL is switched on sets the prescaler for the
/// frequency that the core runs at then, and that holds through the pause
/// and the switching on of the PLL, until the switch is moved.
pub proof fn lemma_legible_before_switch(tree: ClockTree, config: ClockConfig, k: int)
    requires
        config.wf(),
        config.source == ClockSource::Pll,
        4 <= k <= 6,
    ensures
        ({
            let plan = System::spec_apply_plan(tree.switch, config);
            let then = tree.spec_after_all(plan.take(k));
            &&& plan[3] == ClockStep::UpdateSwoPrescaler(
                (System::spec_hclk_before_switch(tree.switch, config) / (SWO_BAUD_RATE as int)
                    - 1) as u32,
            )
            &&& then.switch == tree.switch
            &&& then.spec_hclk(config.prediv) == System::spec_hclk_before_switch(
                tree.switch,
                config,
            )
            &&& then.spec_legible(config.prediv)
        }),
{
    lemma_hclk_bounds(tree.switch, config.pll_source, config.multiplier_code, config.prediv);
    reveal_with_fuel(ClockTree::spec_after_all, 8);
}

/// A reset followed by applying a configuration that does not draw on the
/// external clock can be taken step by step from any state of the clock
/// tree, and ends with the core safely on the configured source at the
/// configured frequency, with exactly the wait states that this frequency
/// needs and the diagnostic output set for it. Where the PLL is brought up
/// on the way, the prescaler written before it is switched on is that of
/// the internal oscillator, which drives the core until the switch is
/// moved.
pub proof fn lemma_reset_then_apply(tree: ClockTree, config: ClockConfig)
    requires
        config.wf(),
        !spec_needs_external(config),
    ensures
        ({
            let apply = System::spec_apply_plan(ClockSource::Internal8MHz, config);
            let plan = System::spec_reset_plan() + apply;
            let after = tree.spec_after_all(plan);
            &&& tree.spec_permits_all(plan, config.prediv)
            &&& after.spec_safe(config.prediv)
            &&& after.spec_legible(config.prediv)
            &&& after.switch == config.source
            &&& after.bus_divider == config.bus_divider
            &&& after.spec_hclk(config.prediv) == config.spec_frequency()
            &&& after.wait_states == spec_wait_states(config.spec_frequency())
            &&& after.swo_prescaler == config.spec_frequency() / (SWO_BAUD_RATE as int) - 1
            &&& after.pll_on == (config.source == ClockSource::Pll)
            &&& !after.external_on
            &&& config.source == ClockSource::Pll ==> apply[3] == ClockStep::UpdateSwoPrescaler(
                spec_prescaler(HSI_CLK) as u32,
            )
        }),
{
    lemma_reset_reaches_defaults(tree, config.prediv);
    let defaults = tree.spec_after_all(System::spec_reset_plan());
    lemma_apply_reaches_config(defaults, config);
    lemma_steps_concat(
        tree,
        System::spec_reset_plan(),
        System::spec_apply_plan(ClockSource::Internal8MHz, config),
        config.prediv,
    );
}

/// Where all of `steps` may be taken from a safe state, the tree is safe
/// after each of them: after the first `k`, for every `k`.
pub proof fn lemma_safe_after_every_step(
    tree: ClockTree,
    steps: Seq<ClockStep>,
    prediv: u32,
    k: int,
)
    requires
        tree.spec_safe(prediv),
        tree.spec_permits_all(steps, prediv),
        0 <= k <= steps.len(),
    ensures
        tree.spec_after_all(steps.take(k)).spec_safe(prediv),
{
    assert(steps.take(k) + steps.skip(k) =~= steps);
    lemma_steps_concat(tree, steps.take(k), steps.skip(k), prediv);
    lemma_permitted_steps_keep_safe(tree, steps.take(k), prediv);
}

} // verus!
