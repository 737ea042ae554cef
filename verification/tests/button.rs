use clock_blinky::button::{
    tick_reload, tick_setup, Action, ButtonEventEngine, DebounceState, Event, RunOutcome,
};
use clock_blinky::system::TickSetup;

fn ticks(n: usize) -> Vec<Event> {
    vec![Event::Tick; n]
}

#[test]
fn blink_interval_follows_the_frequency() {
    assert_eq!(ButtonEventEngine::new(4_000_000).ticks_ival, 40);
    assert_eq!(ButtonEventEngine::new(8_000_000).ticks_ival, 20);
    assert_eq!(ButtonEventEngine::new(32_000_000).ticks_ival, 5);
    assert_eq!(ButtonEventEngine::new(64_000_000).ticks_ival, 2);
    assert_eq!(ButtonEventEngine::new(7_999_999).ticks_ival, 40);
    assert_eq!(ButtonEventEngine::new(160_000_000).ticks_ival, 1);
    assert_eq!(ButtonEventEngine::new(164_000_000).ticks_ival, 0);
}

#[test]
fn engine_starts_with_led_on_and_counters_at_zero() {
    let engine = ButtonEventEngine::new(8_000_000);
    assert_eq!(
        engine.state,
        DebounceState {
            debounce_counter: 0,
            doubleclick_counter: 0,
            blink_tick_counter: 0,
            led_on: true,
            edges_enabled: true,
        }
    );
    assert_eq!(DebounceState::initial(), engine.state);
}

#[test]
fn tick_reload_scales_with_the_frequency() {
    assert_eq!(tick_reload(4_000_000), 50_000);
    assert_eq!(tick_reload(8_000_000), 100_000);
    assert_eq!(tick_reload(32_000_000), 400_000);
    assert_eq!(tick_reload(64_000_000), 800_000);
    assert_eq!(tick_reload(3_999_999), 0);
    assert_eq!(tick_reload(u32::MAX), 53_650_000);
}

#[test]
fn tick_is_a_tenth_of_a_second_in_every_mode() {
    for hclk in [8_000_000u32, 32_000_000, 64_000_000] {
        assert_eq!(tick_reload(hclk) * 10 * 8, hclk);
    }
}

#[test]
fn tick_setup_counts_from_zero_with_interrupt() {
    assert_eq!(
        tick_setup(32_000_000),
        TickSetup { current: 0, reload: 400_000, tick_interrupt: true, enabled: true }
    );
}

#[test]
fn first_tick_takes_debounce_below_zero() {
    let mut engine = ButtonEventEngine::new(8_000_000);
    assert_eq!(engine.on_event(Event::Tick), Action::Idle);
    assert_eq!(engine.state.debounce_counter, -1);
    assert_eq!(engine.state.doubleclick_counter, 1);
    assert_eq!(engine.state.blink_tick_counter, 1);
    assert!(engine.state.led_on);
}

#[test]
fn counters_stay_at_their_limits() {
    let mut engine = ButtonEventEngine::new(8_000_000);
    engine.state.debounce_counter = i16::MIN;
    engine.state.doubleclick_counter = i16::MAX;
    assert_eq!(engine.on_event(Event::Tick), Action::Idle);
    assert_eq!(engine.state.debounce_counter, i16::MIN);
    assert_eq!(engine.state.doubleclick_counter, i16::MAX);
    engine.state.debounce_counter = i16::MIN + 1;
    engine.state.doubleclick_counter = i16::MAX - 1;
    engine.on_event(Event::Tick);
    assert_eq!(engine.state.debounce_counter, i16::MIN);
    assert_eq!(engine.state.doubleclick_counter, i16::MAX);
}

#[test]
fn led_toggles_once_every_interval() {
    let mut engine = ButtonEventEngine::new(32_000_000);
    let mut actions = Vec::new();
    for _ in 0..11 {
        actions.push(engine.on_event(Event::Tick));
    }
    let mut expected = vec![Action::Idle; 11];
    expected[4] = Action::SetLed(false);
    expected[9] = Action::SetLed(true);
    assert_eq!(actions, expected);
    assert_eq!(engine.state.blink_tick_counter, 1);
    assert!(engine.state.led_on);
}

#[test]
fn toggles_per_hundred_ticks_in_each_mode() {
    for (hclk, toggles) in [(8_000_000u32, 5usize), (32_000_000, 20), (64_000_000, 50)] {
        let mut engine = ButtonEventEngine::new(hclk);
        let out = engine.run(&ticks(100));
        assert_eq!(out, RunOutcome { consumed: 100, confirmed: false, toggles });
        assert_eq!(engine.state.blink_tick_counter, 100 % engine.ticks_ival);
        assert_eq!(engine.state.led_on, toggles % 2 == 0);
    }
}

#[test]
fn zero_interval_toggles_on_every_tick() {
    let mut engine = ButtonEventEngine::new(200_000_000);
    assert_eq!(engine.ticks_ival, 0);
    let out = engine.run(&ticks(7));
    assert_eq!(out, RunOutcome { consumed: 7, confirmed: false, toggles: 7 });
    assert_eq!(engine.state.blink_tick_counter, 0);
    assert!(!engine.state.led_on);
}

#[test]
fn ticks_alone_never_confirm() {
    let mut engine = ButtonEventEngine::new(64_000_000);
    let out = engine.run(&ticks(70_000));
    assert!(!out.confirmed);
    assert_eq!(out.consumed, 70_000);
    assert_eq!(out.toggles, 35_000);
    assert_eq!(engine.state.debounce_counter, i16::MIN);
    assert_eq!(engine.state.doubleclick_counter, i16::MAX);
}

#[test]
fn early_edge_restarts_the_doubleclick_window() {
    let mut engine = ButtonEventEngine::new(8_000_000);
    engine.run(&ticks(4));
    assert_eq!(engine.state.doubleclick_counter, 4);
    assert_eq!(engine.on_event(Event::ButtonEdge), Action::Idle);
    assert_eq!(engine.state.doubleclick_counter, 0);
    assert_eq!(engine.state.debounce_counter, -4);
    assert!(engine.state.edges_enabled);
    assert_eq!(engine.state.blink_tick_counter, 4);
}

#[test]
fn late_edge_arms_the_debounce_window() {
    let mut engine = ButtonEventEngine::new(8_000_000);
    engine.run(&ticks(5));
    assert_eq!(engine.on_event(Event::ButtonEdge), Action::DisableEdges);
    assert_eq!(engine.state.debounce_counter, 2);
    assert_eq!(engine.state.doubleclick_counter, 5);
    assert!(!engine.state.edges_enabled);
}

#[test]
fn folded_edge_lets_edges_through_again() {
    let mut engine = ButtonEventEngine::new(8_000_000);
    engine.state.edges_enabled = false;
    engine.state.doubleclick_counter = 3;
    assert_eq!(engine.on_event(Event::ButtonEdge), Action::EnableEdges);
    assert!(engine.state.edges_enabled);
    assert_eq!(engine.state.doubleclick_counter, 0);
    assert_eq!(engine.on_event(Event::ButtonEdge), Action::Idle);
}

#[test]
fn armed_edge_confirms_on_the_second_tick() {
    let mut engine = ButtonEventEngine::new(8_000_000);
    engine.run(&ticks(5));
    assert_eq!(engine.on_event(Event::ButtonEdge), Action::DisableEdges);
    assert_eq!(engine.on_event(Event::Tick), Action::Idle);
    assert_eq!(engine.state.debounce_counter, 1);
    assert_eq!(engine.on_event(Event::Tick), Action::Confirmed);
    assert_eq!(engine.state.debounce_counter, 0);
    assert_eq!(engine.state.doubleclick_counter, 7);
    assert_eq!(engine.state.blink_tick_counter, 6);
}

#[test]
fn edge_in_the_debounce_window_arms_it_anew() {
    let mut engine = ButtonEventEngine::new(8_000_000);
    let mut events = ticks(5);
    events.extend([Event::ButtonEdge, Event::Tick, Event::ButtonEdge, Event::Tick, Event::Tick]);
    events.extend(ticks(3));
    let out = engine.run(&events);
    assert_eq!(out, RunOutcome { consumed: 10, confirmed: true, toggles: 0 });
}

#[test]
fn two_edges_in_quick_succession_are_one_click() {
    for gap in 0..=4usize {
        let mut engine = ButtonEventEngine::new(8_000_000);
        let mut events = vec![Event::ButtonEdge];
        events.extend(ticks(gap));
        events.push(Event::ButtonEdge);
        events.extend(ticks(50));
        let out = engine.run(&events);
        assert!(!out.confirmed);
        assert_eq!(out.consumed, gap + 52);
        assert_eq!(engine.state.doubleclick_counter, 50);
    }
}

#[test]
fn second_edge_after_the_window_does_not_confirm_by_itself() {
    let mut engine = ButtonEventEngine::new(8_000_000);
    let mut events = vec![Event::ButtonEdge];
    events.extend(ticks(7));
    events.push(Event::ButtonEdge);
    let out = engine.run(&events);
    assert_eq!(out, RunOutcome { consumed: 9, confirmed: false, toggles: 0 });
    assert_eq!(engine.state.debounce_counter, 2);
    let out = engine.run(&ticks(6));
    assert_eq!(out, RunOutcome { consumed: 2, confirmed: true, toggles: 0 });
}

#[test]
fn run_stops_at_the_confirming_event() {
    let mut engine = ButtonEventEngine::new(64_000_000);
    let mut events = ticks(6);
    events.push(Event::ButtonEdge);
    events.extend(ticks(10));
    let out = engine.run(&events);
    assert_eq!(out, RunOutcome { consumed: 9, confirmed: true, toggles: 3 });
    assert_eq!(engine.state.blink_tick_counter, 1);
}

#[test]
fn run_over_nothing_changes_nothing() {
    let mut engine = ButtonEventEngine::new(8_000_000);
    let before = engine;
    let out = engine.run(&Vec::new());
    assert_eq!(out, RunOutcome { consumed: 0, confirmed: false, toggles: 0 });
    assert_eq!(engine, before);
}

#[test]
fn toggles_count_ticks_whatever_edges_come_between() {
    let mut engine = ButtonEventEngine::new(32_000_000);
    let mut events = Vec::new();
    for i in 0..23 {
        events.push(Event::Tick);
        if i % 3 == 0 {
            events.push(Event::ButtonEdge);
        }
    }
    let out = engine.run(&events);
    assert_eq!(out, RunOutcome { consumed: 31, confirmed: false, toggles: 4 });
    assert_eq!(engine.state.blink_tick_counter, 3);
    assert!(engine.state.led_on);
}

#[test]
fn confirming_tick_does_not_advance_the_blink() {
    let mut engine = ButtonEventEngine::new(64_000_000);
    let mut events = ticks(5);
    events.push(Event::ButtonEdge);
    events.extend(ticks(4));
    let out = engine.run(&events);
    assert_eq!(out, RunOutcome { consumed: 8, confirmed: true, toggles: 3 });
    assert_eq!(engine.state.blink_tick_counter, 0);
    assert!(!engine.state.led_on);
}

#[test]
fn engine_tells_whether_its_blink_counter_is_in_range() {
    let mut engine = ButtonEventEngine::new(8_000_000);
    assert!(engine.is_wf());
    engine.state.blink_tick_counter = 19;
    assert!(engine.is_wf());
    engine.state.blink_tick_counter = 20;
    assert!(!engine.is_wf());
    engine.ticks_ival = 0;
    assert!(!engine.is_wf());
    engine.state.blink_tick_counter = 0;
    assert!(engine.is_wf());
}
