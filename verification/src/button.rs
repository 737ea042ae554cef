//! The button event engine: debounce and double-click detection on a merged
//! stream of timer ticks and button edges, with an LED blink whose period in
//! ticks shrinks as the core clock rises.
//!
//! The engine is a state machine. Whoever owns the hardware waits for the next
//! event, hands it to [`ButtonEventEngine::on_event`] and performs the
//! [`Action`] that comes back, until the action is [`Action::Confirmed`].

use vstd::prelude::*;
use vstd::arithmetic::div_mod::{lemma_div_plus_one, lemma_mod_add_multiples_vanish};
use crate::system::TickSetup;

verus! {

/// Number of ticks for which the engine ignores the button after a click
/// that counts.
pub const DEBOUNCE_IVAL: i16 = 2;

/// Number of ticks that must have passed since the last folded edge for a
/// click to count.
pub const DOUBLECLICK_IVAL: i16 = 4;

/// Core frequency, in Hz, that the tick and blink scaling refer to.
pub const BASE_CLK: u32 = 4_000_000;

/// Number of ticks between two LED toggles at a core frequency of
/// [`BASE_CLK`].
pub const BLINK_TICKS_AT_BASE: u32 = 40;

/// Timer reload value that makes one tick at a core frequency of
/// [`BASE_CLK`]: a tenth of a second of a timer that counts an eighth of the
/// core clock.
pub const TICK_RELOAD_AT_BASE: u32 = 50_000;

/// One event of the merged stream.
#[derive(Clone, Copy, Debug, PartialEq, Eq, Structural)]
pub enum Event {
    /// The periodic timer has expired once.
    Tick,
    /// The button input has seen one rising edge.
    ButtonEdge,
}

/// What the owner of the hardware has to do after an event.
#[derive(Clone, Copy, Debug, PartialEq, Eq, Structural)]
pub enum Action {
    /// Nothing.
    Idle,
    /// Drive the LED output to the given level.
    SetLed(bool),
    /// Stop further edge notifications from the button.
    DisableEdges,
    /// Let edge notifications from the button through again.
    EnableEdges,
    /// A double click is confirmed: the engine has finished.
    Confirmed,
}

/// The counters and flags that the engine keeps between events.
#[derive(Clone, Copy, Debug, PartialEq, Eq, Structural)]
pub struct DebounceState {
    /// Counts down by one per tick, and stays at its minimum.
    pub debounce_counter: i16,
    /// Counts up by one per tick, and stays at its maximum.
    pub doubleclick_counter: i16,
    /// Ticks since the LED last toggled.
    pub blink_tick_counter: u32,
    /// Level that the LED output is driven to.
    pub led_on: bool,
    /// Whether edge notifications from the button are let through.
    pub edges_enabled: bool,
}

/// The debounce counter after one more tick.
pub open spec fn spec_debounce_tick(counter: i16) -> i16 {
    if counter > i16::MIN {
        (counter - 1) as i16
    } else {
        counter
    }
}

/// The double-click counter after one more tick.
pub open spec fn spec_doubleclick_tick(counter: i16) -> i16 {
    if counter < i16::MAX {
        (counter + 1) as i16
    } else {
        counter
    }
}

/// State and action that follow a tick in state `s`, with `ticks_ival` ticks
/// between two LED toggles.
pub open spec fn spec_on_tick(ticks_ival: u32, s: DebounceState) -> (DebounceState, Action) {
    let debounce = spec_debounce_tick(s.debounce_counter);
    let doubleclick = spec_doubleclick_tick(s.doubleclick_counter);
    if debounce == 0 && doubleclick >= DOUBLECLICK_IVAL {
        (
            DebounceState { debounce_counter: debounce, doubleclick_counter: doubleclick, ..s },
            Action::Confirmed,
        )
    } else if s.blink_tick_counter + 1 >= ticks_ival {
        (
            DebounceState {
                debounce_counter: debounce,
                doubleclick_counter: doubleclick,
                blink_tick_counter: 0,
                led_on: !s.led_on,
                ..s
            },
            Action::SetLed(!s.led_on),
        )
    } else {
        (
            DebounceState {
                debounce_counter: debounce,
                doubleclick_counter: doubleclick,
                blink_tick_counter: (s.blink_tick_counter + 1) as u32,
                ..s
            },
            Action::Idle,
        )
    }
}

/// State and action that follow a button edge in state `s`.
pub open spec fn spec_on_edge(s: DebounceState) -> (DebounceState, Action) {
    if s.doubleclick_counter > DOUBLECLICK_IVAL {
        (
            DebounceState { debounce_counter: DEBOUNCE_IVAL, edges_enabled: false, ..s },
            Action::DisableEdges,
        )
    } else {
        (
            DebounceState { doubleclick_counter: 0, edges_enabled: true, ..s },
            if s.edges_enabled {
                Action::Idle
            } else {
                Action::EnableEdges
            },
        )
    }
}

/// State and action that follow `event` in state `s`.
pub open spec fn spec_step(ticks_ival: u32, s: DebounceState, event: Event) -> (
    DebounceState,
    Action,
) {
    match event {
        Event::Tick => spec_on_tick(ticks_ival, s),
        Event::ButtonEdge => spec_on_edge(s),
    }
}

/// Number of ticks between two LED toggles at a core frequency of `hclk` Hz.
pub open spec fn spec_ticks_ival(hclk: u32) -> int {
    BLINK_TICKS_AT_BASE as int / (hclk as int / BASE_CLK as int)
}

/// Timer reload value that makes one tick at a core frequency of `hclk` Hz.
pub open spec fn spec_tick_reload(hclk: u32) -> int {
    TICK_RELOAD_AT_BASE as int * (hclk as int / BASE_CLK as int)
}

/// Computes the timer reload value that makes one tick at a core frequency
/// of `hclk` Hz.
pub fn tick_reload(hclk: u32) -> (reload: u32)
    ensures
        reload as int == spec_tick_reload(hclk),
{
    let scale: u32 = hclk / BASE_CLK;
    assert(TICK_RELOAD_AT_BASE as int * scale as int <= u32::MAX as int) by (nonlinear_arith)
        requires
            scale <= 1073,
            TICK_RELOAD_AT_BASE == 50_000,
    ;
    TICK_RELOAD_AT_BASE * scale
}

/// Returns the timer setup that delivers the engine's ticks at a core
/// frequency of `hclk` Hz: count from zero, reload after
/// [`spec_tick_reload`] counts, raise the interrupt when the count runs out.
pub fn tick_setup(hclk: u32) -> (setup: TickSetup)
    ensures
        setup == (TickSetup {
            current: 0,
            reload: spec_tick_reload(hclk) as u32,
            tick_interrupt: true,
            enabled: true,
        }),
{
    TickSetup { current: 0, reload: tick_reload(hclk), tick_interrupt: true, enabled: true }
}

/// What a run of the engine over a finite sequence of events comes to.
pub struct RunResult {
    /// The state after the last event that was consumed.
    pub state: DebounceState,
    /// Number of events consumed, the confirming one included.
    pub consumed: nat,
    /// Whether a double click was confirmed.
    pub confirmed: bool,
    /// Number of times the LED was toggled.
    pub toggles: nat,
}

/// The run of the engine from state `s` over `events`: one event at a time,
/// in order, up to and including the first one that confirms a double click.
pub open spec fn spec_run(ticks_ival: u32, s: DebounceState, events: Seq<Event>) -> RunResult
    decreases events.len(),
{
    if events.len() == 0 {
        RunResult { state: s, consumed: 0, confirmed: false, toggles: 0 }
    } else {
        let (next, action) = spec_step(ticks_ival, s, events[0]);
        if action is Confirmed {
            RunResult { state: next, consumed: 1, confirmed: true, toggles: 0 }
        } else {
            let rest = spec_run(ticks_ival, next, events.drop_first());
            RunResult {
                state: rest.state,
                consumed: rest.consumed + 1,
                confirmed: rest.confirmed,
                toggles: rest.toggles + if action is SetLed {
                    1nat
                } else {
                    0nat
                },
            }
        }
    }
}

/// What [`ButtonEventEngine::run`] reports.
#[derive(Clone, Copy, Debug, PartialEq, Eq, Structural)]
pub struct RunOutcome {
    /// Number of events consumed, the confirming one included.
    pub consumed: usize,
    /// Whether a double click was confirmed.
    pub confirmed: bool,
    /// Number of times the LED was toggled.
    pub toggles: usize,
}

/// The engine: its state, and the blink interval of the core frequency that
/// it was started for.
#[derive(Clone, Copy, Debug, PartialEq, Eq, Structural)]
pub struct ButtonEventEngine {
    /// Number of ticks between two LED toggles.
    pub ticks_ival: u32,
    /// The counters and flags.
    pub state: DebounceState,
}

impl DebounceState {
    /// The state that every invocation of the engine starts in: all counters
    /// at zero, the LED on, edge notifications let through.
    pub open spec fn spec_initial() -> DebounceState {
        DebounceState {
            debounce_counter: 0,
            doubleclick_counter: 0,
            blink_tick_counter: 0,
            led_on: true,
            edges_enabled: true,
        }
    }

    /// Returns the state that every invocation of the engine starts in.
    pub fn initial() -> (s: DebounceState)
        ensures
            s == Self::spec_initial(),
    {
        DebounceState {
            debounce_counter: 0,
            doubleclick_counter: 0,
            blink_tick_counter: 0,
            led_on: true,
            edges_enabled: true,
        }
    }
}

impl ButtonEventEngine {
    /// The blink counter is below the blink interval, or at zero where the
    /// interval is zero.
    pub open spec fn wf(&self) -> bool {
        self.state.blink_tick_counter == 0 || self.state.blink_tick_counter < self.ticks_ival
    }

    /// Tells whether the blink counter is where it can be.
    pub fn is_wf(&self) -> (b: bool)
        ensures
            b == self.wf(),
    {
        self.state.blink_tick_counter == 0 || self.state.blink_tick_counter < self.ticks_ival
    }

    /// Starts the engine for a core frequency of `hclk` Hz.
    pub fn new(hclk: u32) -> (engine: ButtonEventEngine)
        requires
            hclk >= BASE_CLK,
        ensures
            engine.wf(),
            engine.ticks_ival as int == spec_ticks_ival(hclk),
            engine.state == DebounceState::spec_initial(),
    {
        ButtonEventEngine {
            ticks_ival: BLINK_TICKS_AT_BASE / (hclk / BASE_CLK),
            state: DebounceState::initial(),
        }
    }

    /// Consumes one event and returns what has to be done about it.
    pub fn on_event(&mut self, event: Event) -> (action: Action)
        requires
            old(self).wf(),
        ensures
            final(self).wf(),
            final(self).ticks_ival == old(self).ticks_ival,
            (final(self).state, action) == spec_step(
                old(self).ticks_ival,
                old(self).state,
                event,
            ),
    {
        match event {
            Event::Tick => {
                if self.state.debounce_counter > i16::MIN {
                    self.state.debounce_counter = self.state.debounce_counter - 1;
                }
                if self.state.doubleclick_counter < i16::MAX {
                    self.state.doubleclick_counter = self.state.doubleclick_counter + 1;
                }
                if self.state.debounce_counter == 0 && self.state.doubleclick_counter
                    >= DOUBLECLICK_IVAL {
                    return Action::Confirmed;
                }
                self.state.blink_tick_counter = self.state.blink_tick_counter + 1;
                if self.state.blink_tick_counter >= self.ticks_ival {
                    self.state.blink_tick_counter = 0;
                    self.state.led_on = !self.state.led_on;
                    Action::SetLed(self.state.led_on)
                } else {
                    Action::Idle
                }
            },
            Event::ButtonEdge => {
                if self.state.doubleclick_counter > DOUBLECLICK_IVAL {
                    self.state.debounce_counter = DEBOUNCE_IVAL;
                    self.state.edges_enabled = false;
                    Action::DisableEdges
                } else {
                    self.state.doubleclick_counter = 0;
                    if self.state.edges_enabled {
                        Action::Idle
                    } else {
                        self.state.edges_enabled = true;
                        Action::EnableEdges
                    }
                }
            },
        }
    }

    /// Feeds `events` to the engine, one at a time and in order, and stops
    /// after the first one that confirms a double click.
    pub fn run(&mut self, events: &Vec<Event>) -> (out: RunOutcome)
        requires
            old(self).wf(),
        ensures
            final(self).wf(),
            final(self).ticks_ival == old(self).ticks_ival,
            final(self).state == spec_run(old(self).ticks_ival, old(self).state, events@).state,
            out.consumed as nat == spec_run(
                old(self).ticks_ival,
                old(self).state,
                events@,
            ).consumed,
            out.confirmed == spec_run(old(self).ticks_ival, old(self).state, events@).confirmed,
            out.toggles as nat == spec_run(
                old(self).ticks_ival,
                old(self).state,
                events@,
            ).toggles,
    {
        let ghost ival = self.ticks_ival;
        let ghost whole = spec_run(ival, self.state, events@);
        let mut i: usize = 0;
        let mut toggles: usize = 0;
        let mut confirmed = false;
        proof {
            assert(events@.skip(0) =~= events@);
        }
        while i < events.len() && !confirmed
            invariant
                i <= events.len(),
                toggles <= i,
                self.wf(),
                self.ticks_ival == ival,
                confirmed ==> whole == (RunResult {
                    state: self.state,
                    consumed: i as nat,
                    confirmed: true,
                    toggles: toggles as nat,
                }),
                !confirmed ==> ({
                    let rest = spec_run(ival, self.state, events@.skip(i as int));
                    &&& whole.state == rest.state
                    &&& whole.consumed == i + rest.consumed
                    &&& whole.confirmed == rest.confirmed
                    &&& whole.toggles == toggles + rest.toggles
                }),
            decreases events.len() - i,
        {
            proof {
                assert(events@.skip(i as int)[0] == events@[i as int]);
                assert(events@.skip(i as int).drop_first() =~= events@.skip(i as int + 1));
            }
            let action = self.on_event(events[i]);
            i = i + 1;
            match action {
                Action::Confirmed => {
                    confirmed = true;
                },
                Action::SetLed(_) => {
                    toggles = toggles + 1;
                },
                _ => {},
            }
        }
        RunOutcome { consumed: i, confirmed, toggles }
    }
}

/// A sequence of `n` ticks.
pub open spec fn spec_ticks(n: nat) -> Seq<Event> {
    Seq::new(n, |i: int| Event::Tick)
}

/// The period of the LED in ticks: the blink interval, or one tick where the
/// interval is zero.
pub open spec fn spec_blink_period(ticks_ival: u32) -> int {
    if ticks_ival == 0 {
        1
    } else {
        ticks_ival as int
    }
}

/// The level of an LED that started at `led_on` and was toggled `toggles`
/// times.
pub open spec fn spec_led_after(led_on: bool, toggles: int) -> bool {
    if toggles % 2 == 0 {
        led_on
    } else {
        !led_on
    }
}

/// No button edge confirms a double click by itself, and none touches the
/// blink counter or the LED.
pub proof fn lemma_edge_never_confirms(ticks_ival: u32, s: DebounceState)
    ensures
        !(spec_step(ticks_ival, s, Event::ButtonEdge).1 is Confirmed),
        !(spec_step(ticks_ival, s, Event::ButtonEdge).1 is SetLed),
        spec_step(ticks_ival, s, Event::ButtonEdge).0.blink_tick_counter == s.blink_tick_counter,
        spec_step(ticks_ival, s, Event::ButtonEdge).0.led_on == s.led_on,
{
}

/// A tick confirms a double click exactly when it takes the debounce counter
/// from one to zero while the double-click counter, this tick included, has
/// reached its threshold.
pub proof fn lemma_tick_confirms_iff(ticks_ival: u32, s: DebounceState)
    ensures
        spec_step(ticks_ival, s, Event::Tick).1 is Confirmed <==> s.debounce_counter == 1
            && s.doubleclick_counter >= DOUBLECLICK_IVAL - 1,
{
}

/// A run over two sequences, one after the other, is the run over the first,
/// followed, unless that one confirmed, by the run over the second from the
/// state that the first one left.
pub proof fn lemma_run_concat(ticks_ival: u32, s: DebounceState, a: Seq<Event>, b: Seq<Event>)
    ensures
        ({
            let first = spec_run(ticks_ival, s, a);
            let second = spec_run(ticks_ival, first.state, b);
            spec_run(ticks_ival, s, a + b) == if first.confirmed {
                first
            } else {
                RunResult {
                    state: second.state,
                    consumed: first.consumed + second.consumed,
                    confirmed: second.confirmed,
                    toggles: first.toggles + second.toggles,
                }
            }
        }),
    decreases a.len(),
{
    if a.len() == 0 {
        assert(a + b =~= b);
    } else {
        let (next, action) = spec_step(ticks_ival, s, a[0]);
        assert((a + b)[0] == a[0]);
        assert((a + b).drop_first() =~= a.drop_first() + b);
        if !(action is Confirmed) {
            lemma_run_concat(ticks_ival, next, a.drop_first(), b);
        }
    }
}

/// While the debounce counter is not above zero, ticks alone never confirm a
/// double click: all `n` of them are consumed, the LED toggles once every
/// blink period, and the counters run to where `n` ticks take them.
pub proof fn lemma_ticks_only(ticks_ival: u32, s: DebounceState, n: nat)
    requires
        s.debounce_counter <= 0,
        s.blink_tick_counter == 0 || s.blink_tick_counter < ticks_ival,
    ensures
        ({
            let r = spec_run(ticks_ival, s, spec_ticks(n));
            let p = spec_blink_period(ticks_ival);
            &&& !r.confirmed
            &&& r.consumed == n
            &&& r.toggles == (s.blink_tick_counter + n) / p
            &&& r.state.blink_tick_counter == (s.blink_tick_counter + n) % p
            &&& r.state.led_on == spec_led_after(s.led_on, (s.blink_tick_counter + n) / p)
            &&& r.state.edges_enabled == s.edges_enabled
            &&& r.state.debounce_counter == if s.debounce_counter - n >= i16::MIN {
                s.debounce_counter - n
            } else {
                i16::MIN as int
            }
            &&& r.state.doubleclick_counter == if s.doubleclick_counter + n <= i16::MAX {
                s.doubleclick_counter + n
            } else {
                i16::MAX as int
            }
        }),
    decreases n,
{
    let p = spec_blink_period(ticks_ival);
    let c = s.blink_tick_counter as int;
    if n == 0 {
        assert(c / p == 0 && c % p == c) by (nonlinear_arith)
            requires
                0 <= c < p,
        ;
    } else {
        let (next, action) = spec_step(ticks_ival, s, Event::Tick);
        let m = (n - 1) as nat;
        assert(spec_ticks(n)[0] == Event::Tick);
        assert(spec_ticks(n).drop_first() =~= spec_ticks(m));
        lemma_ticks_only(ticks_ival, next, m);
        if action is SetLed {
            assert(c + 1 == p);
            assert(c + n == p + m);
            lemma_div_plus_one(m as int, p);
            lemma_mod_add_multiples_vanish(m as int, p);
        }
    }
}

/// A button edge that arrives with the double-click counter above its
/// threshold arms the debounce window, and the second tick after it confirms
/// the double click, whatever follows.
pub proof fn lemma_armed_edge_confirms(ticks_ival: u32, s: DebounceState, events: Seq<Event>)
    requires
        s.doubleclick_counter > DOUBLECLICK_IVAL,
        events.len() >= 3,
        events[0] == Event::ButtonEdge,
        events[1] == Event::Tick,
        events[2] == Event::Tick,
    ensures
        spec_step(ticks_ival, s, Event::ButtonEdge).1 == Action::DisableEdges,
        spec_run(ticks_ival, s, events).confirmed,
        spec_run(ticks_ival, s, events).consumed == 3,
        spec_run(ticks_ival, s, events).state.debounce_counter == 0,
{
    let (s1, a1) = spec_step(ticks_ival, s, events[0]);
    let e1 = events.drop_first();
    let (s2, a2) = spec_step(ticks_ival, s1, e1[0]);
    let e2 = e1.drop_first();
    let (s3, a3) = spec_step(ticks_ival, s2, e2[0]);
    assert(a3 is Confirmed);
    assert(spec_run(ticks_ival, s2, e2).consumed == 1);
    assert(spec_run(ticks_ival, s1, e1).consumed == 2);
}

/// Two button edges that are fewer ticks apart than it takes the
/// double-click counter to pass its threshold are folded into one click:
/// from a state with the debounce counter not above zero and the
/// double-click counter not above its threshold, an edge, `gap` ticks, a
/// second edge and any number of further ticks confirm nothing.
pub proof fn lemma_quick_edges_fold(ticks_ival: u32, s: DebounceState, gap: nat, after: nat)
    requires
        s.debounce_counter <= 0,
        s.doubleclick_counter <= DOUBLECLICK_IVAL,
        s.blink_tick_counter == 0 || s.blink_tick_counter < ticks_ival,
        gap <= DOUBLECLICK_IVAL,
    ensures
        ({
            let events = seq![Event::ButtonEdge] + spec_ticks(gap) + seq![Event::ButtonEdge] + spec_ticks(
                after,
            );
            let r = spec_run(ticks_ival, s, events);
            &&& !r.confirmed
            &&& r.consumed == gap + after + 2
            &&& r.state.doubleclick_counter == after
                || r.state.doubleclick_counter == i16::MAX
        }),
{
    let edge = seq![Event::ButtonEdge];
    let r1 = spec_run(ticks_ival, s, edge);
    assert(r1.state == spec_on_edge(s).0 && !r1.confirmed && r1.consumed == 1) by {
        assert(edge.drop_first() =~= Seq::<Event>::empty());
        assert(spec_run(ticks_ival, spec_on_edge(s).0, edge.drop_first()).consumed == 0);
    }
    lemma_ticks_only(ticks_ival, r1.state, gap);
    let r2 = spec_run(ticks_ival, r1.state, spec_ticks(gap));
    let r3 = spec_run(ticks_ival, r2.state, edge);
    assert(r3.state == spec_on_edge(r2.state).0 && !r3.confirmed && r3.consumed == 1) by {
        assert(edge.drop_first() =~= Seq::<Event>::empty());
        assert(spec_run(ticks_ival, spec_on_edge(r2.state).0, edge.drop_first()).consumed == 0);
    }
    lemma_ticks_only(ticks_ival, r3.state, after);
    lemma_run_concat(ticks_ival, s, edge, spec_ticks(gap));
    lemma_run_concat(ticks_ival, s, edge + spec_ticks(gap), edge);
    lemma_run_concat(ticks_ival, s, edge + spec_ticks(gap) + edge, spec_ticks(after));
}

/// Number of ticks among `events`.
pub open spec fn spec_tick_count(events: Seq<Event>) -> nat
    decreases events.len(),
{
    if events.len() == 0 {
        0
    } else {
        spec_tick_count(events.drop_first()) + if events[0] == Event::Tick {
            1nat
        } else {
            0nat
        }
    }
}

/// In every run, whatever button edges come in between, the LED toggles
/// exactly once for every full blink period of ticks: where `counted` is
/// the number of ticks among the events consumed, less the confirming one,
/// the run has toggled the LED as often as the blink period fits into the
/// blink counter's start plus `counted`, and the remainder is what the
/// blink counter holds.
pub proof fn lemma_toggles_follow_ticks(ticks_ival: u32, s: DebounceState, events: Seq<Event>)
    requires
        s.blink_tick_counter == 0 || s.blink_tick_counter < ticks_ival,
    ensures
        ({
            let r = spec_run(ticks_ival, s, events);
            let p = spec_blink_period(ticks_ival);
            let counted = spec_tick_count(events.take(r.consumed as int)) - if r.confirmed {
                1int
            } else {
                0int
            };
            &&& r.consumed <= events.len()
            &&& r.confirmed ==> r.consumed >= 1 && events[r.consumed - 1] == Event::Tick
            &&& counted >= 0
            &&& r.toggles == (s.blink_tick_counter + counted) / p
            &&& r.state.blink_tick_counter == (s.blink_tick_counter + counted) % p
            &&& r.state.led_on == spec_led_after(s.led_on, (s.blink_tick_counter + counted) / p)
        }),
    decreases events.len(),
{
    let p = spec_blink_period(ticks_ival);
    let c = s.blink_tick_counter as int;
    let r = spec_run(ticks_ival, s, events);
    assert(c / p == 0 && c % p == c) by (nonlinear_arith)
        requires
            0 <= c < p,
    ;
    if events.len() == 0 {
        assert(events.take(0) =~= Seq::<Event>::empty());
    } else {
        let (next, action) = spec_step(ticks_ival, s, events[0]);
        let tail = events.drop_first();
        let taken = events.take(r.consumed as int);
        if action is Confirmed {
            assert(events[0] == Event::Tick);
            assert(taken.len() == 1 && taken[0] == events[0]);
            assert(taken.drop_first() =~= Seq::<Event>::empty());
            assert(spec_tick_count(taken.drop_first()) == 0);
            assert(spec_tick_count(taken) == 1);
        } else {
            let rest = spec_run(ticks_ival, next, tail);
            lemma_toggles_follow_ticks(ticks_ival, next, tail);
            assert(taken[0] == events[0]);
            assert(taken.drop_first() =~= tail.take(rest.consumed as int));
            let counted_rest = spec_tick_count(tail.take(rest.consumed as int)) - if rest.confirmed {
                1int
            } else {
                0int
            };
            if action is SetLed {
                assert(c + 1 == p);
                lemma_div_plus_one(counted_rest, p);
                lemma_mod_add_multiples_vanish(counted_rest, p);
            }
        }
    }
}

/// At a core frequency of `hclk` Hz, an engine that has just started and
/// sees ticks only never confirms a double click, and has toggled the LED
/// once for every full blink period among the `n` ticks so far. The period
/// is the blink interval of that frequency: forty ticks divided by the
/// number of whole multiples of [`BASE_CLK`] in `hclk`, and at least one.
pub proof fn lemma_blink_period(hclk: u32, n: nat)
    requires
        hclk >= BASE_CLK,
    ensures
        0 <= spec_ticks_ival(hclk) <= BLINK_TICKS_AT_BASE,
        ({
            let ival = spec_ticks_ival(hclk) as u32;
            let r = spec_run(ival, DebounceState::spec_initial(), spec_ticks(n));
            let p = spec_blink_period(ival);
            &&& !r.confirmed
            &&& r.consumed == n
            &&& r.toggles == n as int / p
            &&& r.state.blink_tick_counter == n as int % p
            &&& r.state.led_on == spec_led_after(true, n as int / p)
        }),
{
    let scale = hclk as int / BASE_CLK as int;
    assert(scale >= 1);
    assert(0 <= 40int / scale <= 40) by (nonlinear_arith)
        requires
            scale >= 1,
    ;
    lemma_ticks_only(spec_ticks_ival(hclk) as u32, DebounceState::spec_initial(), n);
}

} // verus!
