use clock_blinky::clock::{ClockConfig, ClockSource, PllSource};
use clock_blinky::mode::ClockMode;
use clock_blinky::swo;
use clock_blinky::system::{System, SystemRes, TickOverflow, TickSetup};
use clock_blinky::tree::{ClockStep, ClockTree};

fn res_for(config: ClockConfig) -> SystemRes {
    SystemRes { tree: ClockTree::power_on(), config }
}

fn setup(reload: u32) -> TickSetup {
    TickSetup { current: 0, reload, tick_interrupt: true, enabled: true }
}

#[test]
fn reset_plan_is_fixed() {
    assert_eq!(
        System::reset_rcc(),
        vec![
            ClockStep::EnableInternalOscillator,
            ClockStep::RestoreSwitchDefaults,
            ClockStep::DisablePll,
            ClockStep::WritePllConfig { pll_source: PllSource::HalfInternal, multiplier_code: 0 },
            ClockStep::DisableExternalOscillator,
            ClockStep::UpdateSwoPrescaler(68),
            ClockStep::Delay { millis: 50 },
        ]
    );
}

#[test]
fn apply_plan_without_pll() {
    assert_eq!(
        System::apply_clock_config(&res_for(ClockMode::Reset8MHz.config())),
        vec![
            ClockStep::SetFlashLatency(2),
            ClockStep::EnableInternalOscillator,
            ClockStep::WriteSwitch { source: ClockSource::Internal8MHz, bus_divider: 0 },
            ClockStep::SetFlashLatency(0),
            ClockStep::UpdateSwoPrescaler(68),
        ]
    );
    let external = ClockConfig {
        source: ClockSource::External,
        pll_source: PllSource::ExternalDiv,
        multiplier_code: 9,
        bus_divider: 8,
        prediv: 1,
    };
    assert_eq!(
        System::apply_clock_config(&res_for(external)),
        vec![
            ClockStep::SetFlashLatency(2),
            ClockStep::EnableInternalOscillator,
            ClockStep::WriteSwitch { source: ClockSource::External, bus_divider: 8 },
            ClockStep::SetFlashLatency(1),
            ClockStep::UpdateSwoPrescaler(415),
        ]
    );
}

#[test]
fn apply_plan_with_pll() {
    assert_eq!(
        System::apply_clock_config(&res_for(ClockMode::Medium32MHz.config())),
        vec![
            ClockStep::SetFlashLatency(2),
            ClockStep::EnableInternalOscillator,
            ClockStep::WritePllConfig { pll_source: PllSource::HalfInternal, multiplier_code: 6 },
            ClockStep::UpdateSwoPrescaler(68),
            ClockStep::Delay { millis: 50 },
            ClockStep::EnablePll,
            ClockStep::WriteSwitch { source: ClockSource::Pll, bus_divider: 0 },
            ClockStep::SetFlashLatency(1),
            ClockStep::UpdateSwoPrescaler(276),
        ]
    );
    assert_eq!(
        System::apply_clock_config(&res_for(ClockMode::High64MHz.config())),
        vec![
            ClockStep::SetFlashLatency(2),
            ClockStep::EnableInternalOscillator,
            ClockStep::WritePllConfig { pll_source: PllSource::HalfInternal, multiplier_code: 14 },
            ClockStep::UpdateSwoPrescaler(68),
            ClockStep::Delay { millis: 50 },
            ClockStep::EnablePll,
            ClockStep::WriteSwitch { source: ClockSource::Pll, bus_divider: 0 },
            ClockStep::SetFlashLatency(2),
            ClockStep::UpdateSwoPrescaler(554),
        ]
    );
}

#[test]
fn prescaler_before_the_pll_is_for_the_clock_that_still_drives_the_core() {
    let config = ClockConfig {
        source: ClockSource::Pll,
        pll_source: PllSource::ExternalDiv,
        multiplier_code: 1,
        bus_divider: 0,
        prediv: 1,
    };
    let steps = System::apply_clock_config(&res_for(config));
    assert_eq!(steps[3], ClockStep::UpdateSwoPrescaler(68));
    assert_eq!(steps[8], ClockStep::UpdateSwoPrescaler(624));

    let mut on_external = res_for(config);
    on_external.tree.switch = ClockSource::External;
    let steps = System::apply_clock_config(&on_external);
    assert_eq!(steps[3], ClockStep::UpdateSwoPrescaler(415));
    assert_eq!(steps[8], ClockStep::UpdateSwoPrescaler(624));
}

#[test]
fn diagnostic_output_follows_the_core_clock_through_a_pass() {
    for mode in [ClockMode::Medium32MHz, ClockMode::High64MHz] {
        let mut tree = ClockTree { swo_prescaler: 9, ..ClockTree::power_on() };
        let mut steps = System::reset_rcc();
        tree.apply_all(&steps, 0);
        assert_eq!(tree.swo_prescaler, swo::prescaler(tree.hclk(0)));
        steps = System::apply_clock_config(&SystemRes { tree, config: mode.config() });
        for (i, step) in steps.iter().enumerate() {
            tree.apply(*step);
            if i != 6 && i != 7 && i >= 3 {
                assert_eq!(tree.swo_prescaler, swo::prescaler(tree.hclk(0)));
            }
        }
        assert_eq!(tree.swo_prescaler, swo::prescaler(mode.config().frequency()));
    }
}

#[test]
fn record_tells_whether_it_is_well_formed() {
    let mut res = res_for(ClockMode::High64MHz.config());
    assert!(res.is_wf());
    res.tree.bus_divider = 16;
    assert!(!res.is_wf());
    res.tree.bus_divider = 15;
    res.config.prediv = 8;
    assert!(!res.is_wf());
    res.config.prediv = 7;
    assert!(res.is_wf());
}

#[test]
fn latency_comes_from_the_configuration() {
    let mut res = res_for(ClockMode::High64MHz.config());
    assert_eq!(System::calculate_latency(&res), 2);
    res.config = ClockMode::Medium32MHz.config();
    assert_eq!(System::calculate_latency(&res), 1);
    res.config = ClockMode::Reset8MHz.config();
    assert_eq!(System::calculate_latency(&res), 0);
    res.tree.switch = ClockSource::External;
    assert_eq!(System::calculate_latency(&res), 0);
}

#[test]
fn hclk_comes_from_the_tree() {
    let mut res = res_for(ClockMode::High64MHz.config());
    assert_eq!(System::calculate_hclk(&res), 8_000_000);
    res.tree.switch = ClockSource::Pll;
    assert_eq!(System::calculate_hclk(&res), 8_000_000);
    res.tree.multiplier_code = 14;
    assert_eq!(System::calculate_hclk(&res), 64_000_000);
    res.tree.pll_source = PllSource::ExternalDiv;
    res.config.prediv = 3;
    assert_eq!(System::calculate_hclk(&res), 192_000_000);
    res.tree.switch = ClockSource::External;
    assert_eq!(System::calculate_hclk(&res), 48_000_000);
}

#[test]
fn delay_reload_is_millis_times_an_eight_thousandth_of_the_clock() {
    assert_eq!(System::delay(50, 8_000_000), setup(50_000));
    assert_eq!(System::delay(100, 8_000_000), setup(100_000));
    assert_eq!(System::delay(50, 32_000_000), setup(200_000));
    assert_eq!(System::delay(50, 64_000_000), setup(400_000));
    assert_eq!(System::delay(20, 640_000_000), setup(1_600_000));
    assert_eq!(System::delay(7, 7_999), setup(0));
    assert_eq!(System::delay(0, u32::MAX), setup(0));
    assert_eq!(System::delay(8_000, u32::MAX), setup(4_294_960_000));
}

#[test]
fn checked_delay_refuses_what_does_not_fit() {
    assert_eq!(System::checked_delay(50, 8_000_000), Some(setup(50_000)));
    assert_eq!(System::checked_delay(8_000, u32::MAX), Some(setup(4_294_960_000)));
    assert_eq!(System::checked_delay(8_001, u32::MAX), None);
    assert_eq!(System::checked_delay(u32::MAX, 8_000), Some(setup(u32::MAX)));
    assert_eq!(System::checked_delay(u32::MAX, 16_000), None);
}

#[test]
fn controller_and_error_are_plain_values() {
    assert_eq!(System::new(), System {});
    assert_eq!(format!("{:?}", TickOverflow), "TickOverflow");
}

#[test]
fn power_on_tree_runs_on_the_internal_oscillator() {
    let tree = ClockTree::power_on();
    assert!(tree.internal_on && !tree.external_on && !tree.pll_on);
    assert_eq!(tree.switch, ClockSource::Internal8MHz);
    assert_eq!(tree.hclk(0), 8_000_000);
    assert!(tree.is_safe(0));
}

#[test]
fn reset_brings_any_tree_to_the_defaults() {
    let mut tree = ClockTree {
        internal_on: false,
        external_on: true,
        pll_on: true,
        switch: ClockSource::Pll,
        bus_divider: 9,
        apb1_divider: 4,
        apb2_divider: 5,
        pll_source: PllSource::ExternalDiv,
        multiplier_code: 1,
        wait_states: 2,
        swo_prescaler: 7,
    };
    assert!(tree.apply_all(&System::reset_rcc(), 1));
    assert_eq!(
        tree,
        ClockTree { wait_states: 2, swo_prescaler: 68, ..ClockTree::power_on() }
    );
    assert!(tree.is_safe(1));
}

#[test]
fn reset_then_apply_reaches_each_mode() {
    for (mode, hclk, latency, prescaler) in [
        (ClockMode::Reset8MHz, 8_000_000u32, 0u32, 68u32),
        (ClockMode::Medium32MHz, 32_000_000, 1, 276),
        (ClockMode::High64MHz, 64_000_000, 2, 554),
    ] {
        let mut tree = ClockTree { switch: ClockSource::Pll, pll_on: true, multiplier_code: 14, wait_states: 2, ..ClockTree::power_on() };
        let res = res_for(mode.config());
        assert!(tree.apply_all(&System::reset_rcc(), 0));
        assert!(tree.apply_all(&System::apply_clock_config(&res), 0));
        assert_eq!(tree.hclk(0), hclk);
        assert_eq!(tree.wait_states, latency);
        assert_eq!(tree.swo_prescaler, prescaler);
        assert_eq!(tree.switch, mode.config().source);
        assert_eq!(tree.pll_on, mode != ClockMode::Reset8MHz);
        assert!(tree.is_safe(0));
    }
}

#[test]
fn tree_is_safe_after_every_step_of_a_pass() {
    for mode in [ClockMode::Reset8MHz, ClockMode::Medium32MHz, ClockMode::High64MHz] {
        let mut tree = ClockTree::power_on();
        let mut steps = System::reset_rcc();
        steps.extend(System::apply_clock_config(&res_for(mode.config())));
        for step in steps {
            assert!(tree.permits(step, 0));
            tree.apply(step);
            assert!(tree.is_safe(0));
        }
    }
}

#[test]
fn applying_a_pll_configuration_to_a_running_pll_is_not_permitted() {
    let mut tree = ClockTree::power_on();
    let high = res_for(ClockMode::High64MHz.config());
    assert!(tree.apply_all(&System::apply_clock_config(&high), 0));
    let medium = res_for(ClockMode::Medium32MHz.config());
    assert!(!tree.apply_all(&System::apply_clock_config(&medium), 0));
}

#[test]
fn selecting_a_clock_that_is_off_is_not_permitted() {
    let tree = ClockTree::power_on();
    assert!(!tree.permits(ClockStep::WriteSwitch { source: ClockSource::External, bus_divider: 0 }, 0));
    assert!(!tree.permits(ClockStep::WriteSwitch { source: ClockSource::Pll, bus_divider: 0 }, 0));
    assert!(tree.permits(ClockStep::WriteSwitch { source: ClockSource::Internal8MHz, bus_divider: 0 }, 0));
    let on_pll = ClockTree { pll_on: true, switch: ClockSource::Pll, ..tree };
    assert!(!on_pll.permits(ClockStep::DisablePll, 0));
    assert!(!on_pll.permits(ClockStep::WritePllConfig { pll_source: PllSource::HalfInternal, multiplier_code: 3 }, 0));
    assert!(tree.permits(ClockStep::DisablePll, 0));
    let no_internal = ClockTree { internal_on: false, external_on: true, switch: ClockSource::External, wait_states: 1, ..tree };
    assert!(!no_internal.permits(ClockStep::RestoreSwitchDefaults, 0));
    assert!(!no_internal.permits(ClockStep::DisableExternalOscillator, 0));
    assert!(!no_internal.permits(ClockStep::EnablePll, 0));
    assert!(no_internal.permits(ClockStep::EnableInternalOscillator, 0));
}

#[test]
fn wait_states_rise_before_the_frequency_and_fall_after() {
    let tree = ClockTree { pll_on: true, multiplier_code: 14, ..ClockTree::power_on() };
    let to_pll = ClockStep::WriteSwitch { source: ClockSource::Pll, bus_divider: 0 };
    assert!(!tree.permits(to_pll, 0));
    assert!(!ClockTree { wait_states: 1, ..tree }.permits(to_pll, 0));
    assert!(ClockTree { wait_states: 2, ..tree }.permits(to_pll, 0));
    let fast = ClockTree { switch: ClockSource::Pll, wait_states: 2, ..tree };
    assert!(!fast.permits(ClockStep::SetFlashLatency(1), 0));
    assert!(fast.permits(ClockStep::SetFlashLatency(2), 0));
    let slowed = ClockTree { switch: ClockSource::Internal8MHz, ..fast };
    assert!(slowed.permits(ClockStep::SetFlashLatency(0), 0));
    assert!(!ClockTree { wait_states: 1, ..fast }.is_safe(0));
}

#[test]
fn steps_change_only_what_they_name() {
    let start = ClockTree::power_on();
    let mut tree = start;
    tree.apply(ClockStep::Delay { millis: 50 });
    assert_eq!(tree, start);
    tree.apply(ClockStep::SetFlashLatency(2));
    assert_eq!(tree, ClockTree { wait_states: 2, ..start });
    tree.apply(ClockStep::UpdateSwoPrescaler(9));
    assert_eq!(tree, ClockTree { wait_states: 2, swo_prescaler: 9, ..start });
    tree.apply(ClockStep::WritePllConfig { pll_source: PllSource::ExternalDiv, multiplier_code: 5 });
    assert_eq!(tree.pll_source, PllSource::ExternalDiv);
    assert_eq!(tree.multiplier_code, 5);
    assert_eq!(tree.switch, ClockSource::Internal8MHz);
    tree.apply(ClockStep::WriteSwitch { source: ClockSource::External, bus_divider: 3 });
    assert_eq!((tree.switch, tree.bus_divider), (ClockSource::External, 3));
    tree.apply(ClockStep::EnablePll);
    assert!(tree.pll_on);
    tree.apply(ClockStep::DisablePll);
    assert!(!tree.pll_on);
}
