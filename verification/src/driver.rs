//! The top-level driver: it owns the clock mode and the system's resource
//! record. One pass of its loop takes the steps that bring the clock tree to
//! the current mode, computes the frequency that the core then runs at, sets
//! the diagnostic output, the settle pause, the tick and the button event
//! engine up for that one frequency, and listens. The driver moves on to the
//! next mode when, and only when, the engine confirms a double click.

use vstd::prelude::*;
use crate::button::{
    spec_tick_reload, spec_ticks_ival, tick_setup, Action, ButtonEventEngine, DebounceState,
    BASE_CLK,
};
use crate::clock::{lemma_hclk_bounds, spec_pll_input, spec_wait_states, ClockSource, PllSource};
use crate::mode::{lemma_mode_frequency, rotate, spec_rotated, ClockMode};
use crate::swo::{prescaler, spec_prescaler};
use crate::system::{
    lemma_apply_reaches_config, lemma_reset_reaches_defaults, lemma_reset_then_apply,
    spec_delay_reload, System, SystemRes, TickSetup, SETTLE_MILLIS,
};
use crate::tree::{lemma_steps_concat, spec_steps_wf, ClockStep, ClockTree};

verus! {

/// The state of the top-level loop.
#[derive(Clone, Copy, Debug, PartialEq, Eq, Structural)]
pub struct Driver {
    /// The clock mode that the board is in, or is being brought to.
    pub mode: ClockMode,
    /// The system's resource record.
    pub res: SystemRes,
}

/// What one pass of the loop does between the last step of its plan and the
/// first event: everything follows from the one frequency that the core was
/// found to run at.
#[derive(Clone, Copy, Debug, PartialEq, Eq, Structural)]
pub struct ListenSetup {
    /// The frequency, in Hz, that the core runs at.
    pub hclk: u32,
    /// The prescaler to write to the diagnostic output.
    pub swo_prescaler: u32,
    /// The timer setup of the pause that lets the clock tree settle.
    pub settle: TickSetup,
    /// The timer setup that delivers the engine's ticks.
    pub ticks: TickSetup,
    /// The button event engine, as it starts.
    pub engine: ButtonEventEngine,
}

impl ListenSetup {
    /// What a pass does at a core frequency of `hclk` Hz, in this order: set
    /// the diagnostic output for `hclk`, let the tree settle for
    /// [`SETTLE_MILLIS`] milliseconds of `hclk`, then start the timer's
    /// ticks and the engine for `hclk`. There is nothing to do where the
    /// core is too slow for the engine's tick or the pause does not fit the
    /// timer.
    pub open spec fn spec_at(hclk: u32) -> Option<ListenSetup> {
        if hclk < BASE_CLK || spec_delay_reload(SETTLE_MILLIS, hclk) > u32::MAX {
            None
        } else {
            Some(
                ListenSetup {
                    hclk,
                    swo_prescaler: spec_prescaler(hclk) as u32,
                    settle: TickSetup {
                        current: 0,
                        reload: spec_delay_reload(SETTLE_MILLIS, hclk) as u32,
                        tick_interrupt: true,
                        enabled: true,
                    },
                    ticks: TickSetup {
                        current: 0,
                        reload: spec_tick_reload(hclk) as u32,
                        tick_interrupt: true,
                        enabled: true,
                    },
                    engine: ButtonEventEngine {
                        ticks_ival: spec_ticks_ival(hclk) as u32,
                        state: DebounceState::spec_initial(),
                    },
                },
            )
        }
    }

    /// Returns what a pass does at a core frequency of `hclk` Hz, or
    /// nothing where the core is too slow for the engine's tick or the
    /// pause does not fit the timer.
    pub fn at(hclk: u32) -> (out: Option<ListenSetup>)
        ensures
            out == Self::spec_at(hclk),
            out is None <==> hclk < BASE_CLK || spec_delay_reload(SETTLE_MILLIS, hclk) > u32::MAX,
            out matches Some(setup) ==> setup.engine.wf(),
    {
        if hclk < BASE_CLK {
            return None;
        }
        match System::checked_delay(SETTLE_MILLIS, hclk) {
            None => None,
            Some(settle) => Some(
                ListenSetup {
                    hclk,
                    swo_prescaler: prescaler(hclk),
                    settle,
                    ticks: tick_setup(hclk),
                    engine: ButtonEventEngine::new(hclk),
                },
            ),
        }
    }
}

impl Driver {
    /// The resource record is well formed, and its configuration selects
    /// what the mode stands for.
    pub open spec fn wf(&self) -> bool {
        &&& self.res.wf()
        &&& self.res.config == spec_rotated(self.res.config, self.mode)
    }

    /// The steps of one pass of the loop before it listens for the button:
    /// the reset of the clock tree, then the steps that apply the
    /// configuration to the tree that the reset leaves, with the core on
    /// the internal oscillator.
    pub open spec fn spec_cycle_plan(&self) -> Seq<ClockStep> {
        System::spec_reset_plan() + System::spec_apply_plan(
            ClockSource::Internal8MHz,
            self.res.config,
        )
    }

    /// Tells whether the resource record is well formed and its
    /// configuration selects what the mode stands for.
    pub fn is_wf(&self) -> (b: bool)
        ensures
            b == self.wf(),
    {
        let target = self.mode.config();
        let config = self.res.config;
        self.res.tree.is_wf() && config.is_wf() && config.source == target.source
            && config.pll_source == target.pll_source && config.multiplier_code
            == target.multiplier_code
    }

    /// Creates a driver that starts in `mode`, on a clock tree as a hardware
    /// reset leaves it.
    pub fn new(mode: ClockMode) -> (driver: Driver)
        ensures
            driver.wf(),
            driver.mode == mode,
            driver.res.config == mode.spec_config(),
            driver.res.tree == ClockTree::spec_power_on(),
    {
        Driver { mode, res: SystemRes { tree: ClockTree::power_on(), config: mode.config() } }
    }

    /// Returns the steps that bring the clock tree to the current mode, in
    /// the order in which they have to be taken.
    pub fn cycle_plan(&self) -> (steps: Vec<ClockStep>)
        requires
            self.wf(),
        ensures
            steps@ == self.spec_cycle_plan(),
            spec_steps_wf(steps@),
    {
        let mut steps = System::reset_rcc();
        let mut tree = self.res.tree;
        tree.apply_all(&steps, self.res.config.prediv);
        proof {
            lemma_reset_reaches_defaults(self.res.tree, self.res.config.prediv);
        }
        let mut apply = System::apply_clock_config(&SystemRes { tree, config: self.res.config });
        steps.append(&mut apply);
        steps
    }

    /// What the pass does once its plan has been taken and the clock tree
    /// has been read back into the record: [`ListenSetup::spec_at`] the
    /// frequency that the tree runs the core at.
    pub open spec fn spec_listen_setup(&self) -> Option<ListenSetup> {
        ListenSetup::spec_at(self.res.tree.spec_hclk(self.res.config.prediv) as u32)
    }

    /// Returns what the pass does once its plan has been taken and the
    /// clock tree has been read back into the record: the frequency that
    /// the core runs at, computed afresh from the tree, and with it the
    /// prescaler of the diagnostic output, the settle pause, the tick and
    /// the engine. Returns nothing exactly where that frequency is below
    /// [`BASE_CLK`] or the pause does not fit the timer.
    pub fn listen_setup(&self) -> (out: Option<ListenSetup>)
        requires
            self.res.wf(),
        ensures
            out == self.spec_listen_setup(),
            out is None <==> self.res.tree.spec_hclk(self.res.config.prediv) < BASE_CLK
                || spec_delay_reload(
                SETTLE_MILLIS,
                self.res.tree.spec_hclk(self.res.config.prediv) as u32,
            ) > u32::MAX,
            out matches Some(setup) ==> setup.hclk == self.res.tree.spec_hclk(
                self.res.config.prediv,
            ) && setup.engine.wf(),
    {
        proof {
            lemma_hclk_bounds(
                self.res.tree.switch,
                self.res.tree.pll_source,
                self.res.tree.multiplier_code,
                self.res.config.prediv,
            );
        }
        ListenSetup::at(System::calculate_hclk(&self.res))
    }

    /// Takes note of what the button event engine asks for. A confirmed
    /// double click moves the driver on to the next mode and returns the
    /// timer setup of the pause to make before the next pass; any other
    /// action leaves the driver as it is.
    pub fn on_action(&mut self, action: Action) -> (pause: Option<TickSetup>)
        requires
            old(self).wf(),
        ensures
            final(self).wf(),
            final(self).res.tree == old(self).res.tree,
            action is Confirmed ==> {
                &&& final(self).mode == old(self).mode.spec_next()
                &&& final(self).res.config == spec_rotated(
                    old(self).res.config,
                    old(self).mode.spec_next(),
                )
                &&& pause == Some(
                    TickSetup {
                        current: 0,
                        reload: spec_delay_reload(
                            old(self).mode.spec_settle_delay().millis,
                            old(self).mode.spec_settle_delay().hclk,
                        ) as u32,
                        tick_interrupt: true,
                        enabled: true,
                    },
                )
            },
            !(action is Confirmed) ==> *final(self) == *old(self) && pause is None,
    {
        match action {
            Action::Confirmed => {
                let (next, pause) = rotate(self.mode, &mut self.res);
                self.mode = next;
                Some(pause)
            },
            _ => None,
        }
    }
}

/// Whatever state the clock tree is in, every step of one pass of a well
/// formed driver may be taken when its turn comes, and the pass ends with
/// the core safely at the frequency that the driver's mode is named after,
/// with exactly the wait states that this frequency needs.
pub proof fn lemma_cycle_reaches_mode(driver: Driver, tree: ClockTree)
    requires
        driver.wf(),
    ensures
        ({
            let prediv = driver.res.config.prediv;
            let after = tree.spec_after_all(driver.spec_cycle_plan());
            &&& tree.spec_permits_all(driver.spec_cycle_plan(), prediv)
            &&& after.spec_safe(prediv)
            &&& after.spec_hclk(prediv) == driver.mode.spec_nominal_hz()
            &&& after.wait_states == spec_wait_states(driver.mode.spec_nominal_hz())
        }),
{
    let config = driver.res.config;
    assert(config.spec_frequency() == driver.mode.spec_nominal_hz()) by {
        lemma_mode_frequency(driver.mode);
        assert(config.source == driver.mode.spec_config().source);
        assert(config.pll_source == PllSource::HalfInternal);
        assert(config.multiplier_code == driver.mode.spec_config().multiplier_code);
        assert(spec_pll_input(config.pll_source, config.prediv) == spec_pll_input(
            PllSource::HalfInternal,
            0,
        ));
    }
    lemma_reset_then_apply(tree, config);
}

/// A well formed record always has something to listen with: its clock
/// tree runs the core at no less than the internal oscillator's frequency,
/// which is enough for the engine's tick, and the settle pause fits the
/// timer.
pub proof fn lemma_listen_setup_exists(driver: Driver)
    requires
        driver.res.wf(),
    ensures
        driver.spec_listen_setup() is Some,
        driver.spec_listen_setup()->0.hclk == driver.res.tree.spec_hclk(driver.res.config.prediv),
{
    lemma_hclk_bounds(
        driver.res.tree.switch,
        driver.res.tree.pll_source,
        driver.res.tree.multiplier_code,
        driver.res.config.prediv,
    );
}

/// One pass of a well formed driver, from whatever state the clock tree is
/// in: once the steps of the plan have been taken and the tree has been read
/// back, the frequency computed from it is the one that the driver's mode is
/// named after; the prescaler to write is the one that the plan's last step
/// has written; and the settle pause, the tick and the engine are all set up
/// for that same frequency.
pub proof fn lemma_pass_listens_at_mode_frequency(driver: Driver, tree: ClockTree)
    requires
        driver.wf(),
    ensures
        ({
            let after = tree.spec_after_all(driver.spec_cycle_plan());
            let read_back = Driver {
                mode: driver.mode,
                res: SystemRes { tree: after, config: driver.res.config },
            };
            let hclk = driver.mode.spec_nominal_hz() as u32;
            &&& read_back.wf()
            &&& read_back.spec_listen_setup() == ListenSetup::spec_at(hclk)
            &&& read_back.spec_listen_setup() matches Some(setup)
            &&& setup.hclk == driver.mode.spec_nominal_hz()
            &&& setup.swo_prescaler == after.swo_prescaler
            &&& setup.settle.reload == spec_delay_reload(SETTLE_MILLIS, hclk)
            &&& setup.ticks.reload == spec_tick_reload(hclk)
            &&& setup.engine.ticks_ival == spec_ticks_ival(hclk)
            &&& setup.engine.state == DebounceState::spec_initial()
        }),
{
    lemma_cycle_reaches_mode(driver, tree);
    lemma_reset_then_apply(tree, driver.res.config);
    let after = tree.spec_after_all(driver.spec_cycle_plan());
    let read_back = Driver {
        mode: driver.mode,
        res: SystemRes { tree: after, config: driver.res.config },
    };
    lemma_mode_frequency(driver.mode);
    assert(after.multiplier_code <= 15) by {
        lemma_reset_reaches_defaults(tree, driver.res.config.prediv);
        lemma_apply_reaches_config(
            tree.spec_after_all(System::spec_reset_plan()),
            driver.res.config,
        );
        lemma_steps_concat(
            tree,
            System::spec_reset_plan(),
            System::spec_apply_plan(ClockSource::Internal8MHz, driver.res.config),
            driver.res.config.prediv,
        );
    }
    lemma_listen_setup_exists(read_back);
}

} // verus!
