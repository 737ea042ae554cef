//! A model of the clock tree as the hardware latches it, the steps by which
//! the tree is reconfigured, and the conditions under which a step may be
//! taken without leaving the core on a clock that is not running or on
//! flash that is read too fast.

use vstd::prelude::*;
use crate::clock::{
    hclk_of, spec_hclk, spec_wait_states, wait_states_for, ClockSource, PllSource,
    BUS_DIVIDER_MAX, MULTIPLIER_CODE_MAX, PREDIV_MAX,
};
use crate::swo::spec_prescaler;

verus! {

/// One step of a reconfiguration of the clock tree.
#[derive(Clone, Copy, Debug, PartialEq, Eq, Structural)]
pub enum ClockStep {
    /// Write the flash wait-state code.
    SetFlashLatency(u32),
    /// Switch the internal oscillator on and wait until it is ready.
    EnableInternalOscillator,
    /// Switch the external oscillator off.
    DisableExternalOscillator,
    /// Write the input selector and the multiplier code of the PLL.
    WritePllConfig { pll_source: PllSource, multiplier_code: u32 },
    /// Write the prescaler of the diagnostic output.
    UpdateSwoPrescaler(u32),
    /// Pause for the given number of milliseconds of the clock that the core
    /// runs at when the step is taken.
    Delay { millis: u32 },
    /// Switch the PLL on and wait until it has locked.
    EnablePll,
    /// Switch the PLL off.
    DisablePll,
    /// Write the system clock switch and the bus divider.
    WriteSwitch { source: ClockSource, bus_divider: u32 },
    /// Put the system clock switch back on the internal oscillator and all
    /// bus dividers back to one.
    RestoreSwitchDefaults,
}

/// What the clock tree holds.
#[derive(Clone, Copy, Debug, PartialEq, Eq, Structural)]
pub struct ClockTree {
    /// The internal oscillator is on and ready.
    pub internal_on: bool,
    /// The external oscillator is on and ready.
    pub external_on: bool,
    /// The PLL is on and has locked.
    pub pll_on: bool,
    /// The source that the system clock switch selects.
    pub switch: ClockSource,
    /// Encoded divider of the bus clock.
    pub bus_divider: u32,
    /// Encoded divider of the first peripheral bus.
    pub apb1_divider: u32,
    /// Encoded divider of the second peripheral bus.
    pub apb2_divider: u32,
    /// The input that the PLL selects.
    pub pll_source: PllSource,
    /// Encoded multiplication factor of the PLL.
    pub multiplier_code: u32,
    /// The flash wait-state code.
    pub wait_states: u32,
    /// The prescaler of the diagnostic output.
    pub swo_prescaler: u32,
}

impl ClockStep {
    /// The values that the step writes fit their register fields.
    pub open spec fn wf(&self) -> bool {
        match *self {
            ClockStep::WritePllConfig { pll_source, multiplier_code } => multiplier_code
                <= MULTIPLIER_CODE_MAX,
            ClockStep::WriteSwitch { source, bus_divider } => bus_divider <= BUS_DIVIDER_MAX,
            _ => true,
        }
    }
}

/// Every step of `steps` is well formed.
pub open spec fn spec_steps_wf(steps: Seq<ClockStep>) -> bool {
    forall|i: int| 0 <= i < steps.len() ==> (#[trigger] steps[i]).wf()
}

impl ClockTree {
    /// The multiplier code and the bus divider fit their register fields.
    pub open spec fn wf(&self) -> bool {
        &&& self.multiplier_code <= MULTIPLIER_CODE_MAX
        &&& self.bus_divider <= BUS_DIVIDER_MAX
    }

    /// The tree as it is after a hardware reset: the internal oscillator
    /// drives the core, everything else is off or zero.
    pub open spec fn spec_power_on() -> ClockTree {
        ClockTree {
            internal_on: true,
            external_on: false,
            pll_on: false,
            switch: ClockSource::Internal8MHz,
            bus_divider: 0,
            apb1_divider: 0,
            apb2_divider: 0,
            pll_source: PllSource::HalfInternal,
            multiplier_code: 0,
            wait_states: 0,
            swo_prescaler: 0,
        }
    }

    /// The frequency, in Hz, that the core runs at, with the external clock
    /// pre-divided by `prediv + 1` on its way to the PLL.
    pub open spec fn spec_hclk(&self, prediv: u32) -> int {
        spec_hclk(self.switch, self.pll_source, self.multiplier_code, prediv)
    }

    /// The input that the PLL selects is running.
    pub open spec fn spec_pll_input_running(&self) -> bool {
        match self.pll_source {
            PllSource::HalfInternal => self.internal_on,
            PllSource::ExternalDiv => self.external_on,
        }
    }

    /// The clock that `source` names is running.
    pub open spec fn spec_running(&self, source: ClockSource) -> bool {
        match source {
            ClockSource::Internal8MHz => self.internal_on,
            ClockSource::External => self.external_on,
            ClockSource::Pll => self.pll_on && self.spec_pll_input_running(),
        }
    }

    /// The core is on a clock that is running, and flash has at least the
    /// wait states that the core's frequency needs.
    pub open spec fn spec_safe(&self, prediv: u32) -> bool {
        &&& self.spec_running(self.switch)
        &&& self.wait_states >= spec_wait_states(self.spec_hclk(prediv))
    }

    /// The diagnostic output is set for the frequency that the core runs
    /// at, so that what it transmits can be read.
    pub open spec fn spec_legible(&self, prediv: u32) -> bool {
        0 <= self.spec_hclk(prediv) <= u32::MAX && self.swo_prescaler == spec_prescaler(
            self.spec_hclk(prediv) as u32,
        )
    }

    /// The tree after `step`.
    pub open spec fn spec_after(&self, step: ClockStep) -> ClockTree {
        match step {
            ClockStep::SetFlashLatency(code) => ClockTree { wait_states: code, ..*self },
            ClockStep::EnableInternalOscillator => ClockTree { internal_on: true, ..*self },
            ClockStep::DisableExternalOscillator => ClockTree { external_on: false, ..*self },
            ClockStep::WritePllConfig { pll_source, multiplier_code } => ClockTree {
                pll_source,
                multiplier_code,
                ..*self
            },
            ClockStep::UpdateSwoPrescaler(prescaler) => ClockTree {
                swo_prescaler: prescaler,
                ..*self
            },
            ClockStep::Delay { millis } => *self,
            ClockStep::EnablePll => ClockTree { pll_on: true, ..*self },
            ClockStep::DisablePll => ClockTree { pll_on: false, ..*self },
            ClockStep::WriteSwitch { source, bus_divider } => ClockTree {
                switch: source,
                bus_divider,
                ..*self
            },
            ClockStep::RestoreSwitchDefaults => ClockTree {
                switch: ClockSource::Internal8MHz,
                bus_divider: 0,
                apb1_divider: 0,
                apb2_divider: 0,
                ..*self
            },
        }
    }

    /// `step` may be taken in this state: it switches nothing off that the
    /// core or a running PLL depends on, selects nothing that is not
    /// running, reprograms no PLL that is on, and never leaves flash with
    /// fewer wait states than the frequency of the moment needs.
    pub open spec fn spec_permits(&self, step: ClockStep, prediv: u32) -> bool {
        match step {
            ClockStep::SetFlashLatency(code) => code >= spec_wait_states(self.spec_hclk(prediv)),
            ClockStep::EnableInternalOscillator => true,
            ClockStep::DisableExternalOscillator => self.switch != ClockSource::External && !(
            self.pll_on && self.pll_source == PllSource::ExternalDiv),
            ClockStep::WritePllConfig { pll_source, multiplier_code } => !self.pll_on,
            ClockStep::UpdateSwoPrescaler(prescaler) => true,
            ClockStep::Delay { millis } => true,
            ClockStep::EnablePll => self.spec_pll_input_running(),
            ClockStep::DisablePll => self.switch != ClockSource::Pll,
            ClockStep::WriteSwitch { source, bus_divider } => self.spec_running(source)
                && self.wait_states >= spec_wait_states(
                spec_hclk(source, self.pll_source, self.multiplier_code, prediv),
            ),
            ClockStep::RestoreSwitchDefaults => self.internal_on,
        }
    }

    /// The tree after all of `steps`, taken in order.
    pub open spec fn spec_after_all(&self, steps: Seq<ClockStep>) -> ClockTree
        decreases steps.len(),
    {
        if steps.len() == 0 {
            *self
        } else {
            self.spec_after(steps[0]).spec_after_all(steps.drop_first())
        }
    }

    /// Every step of `steps` may be taken in the state that the steps before
    /// it have led to.
    pub open spec fn spec_permits_all(&self, steps: Seq<ClockStep>, prediv: u32) -> bool
        decreases steps.len(),
    {
        steps.len() == 0 || (self.spec_permits(steps[0], prediv) && self.spec_after(
            steps[0],
        ).spec_permits_all(steps.drop_first(), prediv))
    }

    /// Returns the tree as it is after a hardware reset.
    pub fn power_on() -> (tree: ClockTree)
        ensures
            tree == Self::spec_power_on(),
    {
        ClockTree {
            internal_on: true,
            external_on: false,
            pll_on: false,
            switch: ClockSource::Internal8MHz,
            bus_divider: 0,
            apb1_divider: 0,
            apb2_divider: 0,
            pll_source: PllSource::HalfInternal,
            multiplier_code: 0,
            wait_states: 0,
            swo_prescaler: 0,
        }
    }

    /// Tells whether the multiplier code and the bus divider fit their
    /// register fields.
    pub fn is_wf(&self) -> (b: bool)
        ensures
            b == self.wf(),
    {
        self.multiplier_code <= MULTIPLIER_CODE_MAX && self.bus_divider <= BUS_DIVIDER_MAX
    }

    /// Computes the frequency, in Hz, that the core runs at.
    pub fn hclk(&self, prediv: u32) -> (hclk: u32)
        requires
            self.wf(),
            prediv <= PREDIV_MAX,
        ensures
            hclk as int == self.spec_hclk(prediv),
    {
        hclk_of(self.switch, self.pll_source, self.multiplier_code, prediv)
    }

    /// Tells whether the clock that `source` names is running.
    pub fn running(&self, source: ClockSource) -> (b: bool)
        ensures
            b == self.spec_running(source),
    {
        match source {
            ClockSource::Internal8MHz => self.internal_on,
            ClockSource::External => self.external_on,
            ClockSource::Pll => self.pll_on && match self.pll_source {
                PllSource::HalfInternal => self.internal_on,
                PllSource::ExternalDiv => self.external_on,
            },
        }
    }

    /// Tells whether the core is on a running clock with enough flash wait
    /// states.
    pub fn is_safe(&self, prediv: u32) -> (b: bool)
        requires
            self.wf(),
            prediv <= PREDIV_MAX,
        ensures
            b == self.spec_safe(prediv),
    {
        self.running(self.switch) && self.wait_states >= wait_states_for(self.hclk(prediv))
    }

    /// Tells whether `step` may be taken in this state.
    pub fn permits(&self, step: ClockStep, prediv: u32) -> (b: bool)
        requires
            self.wf(),
            prediv <= PREDIV_MAX,
        ensures
            b == self.spec_permits(step, prediv),
    {
        match step {
            ClockStep::SetFlashLatency(code) => code >= wait_states_for(self.hclk(prediv)),
            ClockStep::EnableInternalOscillator => true,
            ClockStep::DisableExternalOscillator => {
                let on_external = match self.switch {
                    ClockSource::External => true,
                    _ => false,
                };
                let pll_on_external = self.pll_on && match self.pll_source {
                    PllSource::ExternalDiv => true,
                    _ => false,
                };
                !on_external && !pll_on_external
            },
            ClockStep::WritePllConfig { pll_source: _, multiplier_code: _ } => !self.pll_on,
            ClockStep::UpdateSwoPrescaler(_) => true,
            ClockStep::Delay { millis: _ } => true,
            ClockStep::EnablePll => match self.pll_source {
                PllSource::HalfInternal => self.internal_on,
                PllSource::ExternalDiv => self.external_on,
            },
            ClockStep::DisablePll => match self.switch {
                ClockSource::Pll => false,
                _ => true,
            },
            ClockStep::WriteSwitch { source, bus_divider: _ } => {
                self.running(source) && self.wait_states >= wait_states_for(
                    hclk_of(source, self.pll_source, self.multiplier_code, prediv),
                )
            },
            ClockStep::RestoreSwitchDefaults => self.internal_on,
        }
    }

    /// Takes `step`.
    pub fn apply(&mut self, step: ClockStep)
        ensures
            *final(self) == old(self).spec_after(step),
            old(self).wf() && step.wf() ==> final(self).wf(),
    {
        match step {
            ClockStep::SetFlashLatency(code) => {
                self.wait_states = code;
            },
            ClockStep::EnableInternalOscillator => {
                self.internal_on = true;
            },
            ClockStep::DisableExternalOscillator => {
                self.external_on = false;
            },
            ClockStep::WritePllConfig { pll_source, multiplier_code } => {
                self.pll_source = pll_source;
                self.multiplier_code = multiplier_code;
            },
            ClockStep::UpdateSwoPrescaler(prescaler) => {
                self.swo_prescaler = prescaler;
            },
            ClockStep::Delay { millis: _ } => {},
            ClockStep::EnablePll => {
                self.pll_on = true;
            },
            ClockStep::DisablePll => {
                self.pll_on = false;
            },
            ClockStep::WriteSwitch { source, bus_divider } => {
                self.switch = source;
                self.bus_divider = bus_divider;
            },
            ClockStep::RestoreSwitchDefaults => {
                self.switch = ClockSource::Internal8MHz;
                self.bus_divider = 0;
                self.apb1_divider = 0;
                self.apb2_divider = 0;
            },
        }
    }

    /// Takes all of `steps`, in order, and tells whether each of them was
    /// permitted in the state that it was taken in.
    pub fn apply_all(&mut self, steps: &Vec<ClockStep>, prediv: u32) -> (permitted: bool)
        requires
            old(self).wf(),
            spec_steps_wf(steps@),
            prediv <= PREDIV_MAX,
        ensures
            final(self).wf(),
            *final(self) == old(self).spec_after_all(steps@),
            permitted == old(self).spec_permits_all(steps@, prediv),
    {
        let ghost start = *self;
        let mut permitted = true;
        let mut i: usize = 0;
        proof {
            assert(steps@.skip(0) =~= steps@);
        }
        while i < steps.len()
            invariant
                i <= steps.len(),
                self.wf(),
                spec_steps_wf(steps@),
                prediv <= PREDIV_MAX,
                start.spec_after_all(steps@) == self.spec_after_all(steps@.skip(i as int)),
                start.spec_permits_all(steps@, prediv) == (permitted && self.spec_permits_all(
                    steps@.skip(i as int),
                    prediv,
                )),
            decreases steps.len() - i,
        {
            proof {
                assert(steps@.skip(i as int)[0] == steps@[i as int]);
                assert(steps@.skip(i as int).drop_first() =~= steps@.skip(i as int + 1));
            }
            let step = steps[i];
            if !self.permits(step, prediv) {
                permitted = false;
            }
            self.apply(step);
            i = i + 1;
        }
        permitted
    }
}

/// A step that is permitted in a safe state leads to a safe state.
pub proof fn lemma_permitted_step_keeps_safe(tree: ClockTree, step: ClockStep, prediv: u32)
    requires
        tree.spec_safe(prediv),
        tree.spec_permits(step, prediv),
    ensures
        tree.spec_after(step).spec_safe(prediv),
{
}

/// Steps that are all permitted, taken from a safe state, lead to a safe
/// state.
pub proof fn lemma_permitted_steps_keep_safe(tree: ClockTree, steps: Seq<ClockStep>, prediv: u32)
    requires
        tree.spec_safe(prediv),
        tree.spec_permits_all(steps, prediv),
    ensures
        tree.spec_after_all(steps).spec_safe(prediv),
    decreases steps.len(),
{
    if steps.len() > 0 {
        lemma_permitted_step_keeps_safe(tree, steps[0], prediv);
        lemma_permitted_steps_keep_safe(tree.spec_after(steps[0]), steps.drop_first(), prediv);
    }
}

/// Taking two sequences of steps one after the other is taking their
/// concatenation, and the concatenation is permitted exactly when the first
/// is permitted and the second is permitted in the state that the first
/// leads to.
pub proof fn lemma_steps_concat(
    tree: ClockTree,
    first: Seq<ClockStep>,
    second: Seq<ClockStep>,
    prediv: u32,
)
    ensures
        tree.spec_after_all(first + second) == tree.spec_after_all(first).spec_after_all(second),
        tree.spec_permits_all(first + second, prediv) == (tree.spec_permits_all(first, prediv)
            && tree.spec_after_all(first).spec_permits_all(second, prediv)),
    decreases first.len(),
{
    if first.len() == 0 {
        assert(first + second =~= second);
    } else {
        assert((first + second)[0] == first[0]);
        assert((first + second).drop_first() =~= first.drop_first() + second);
        lemma_steps_concat(tree.spec_after(first[0]), first.drop_first(), second, prediv);
    }
}

} // verus!
