//! The timer: a state (running, paused or stopped), a current cycle
//! and a loop counter. Timer operations report what happened as
//! timer events.
use vstd::prelude::*;

use crate::platform::{elapsed_since, instant_now, not_found_error, whole_secs};

verus! {

/// The timer loop: how many times the whole list of cycles is run
/// before the timer stops by itself.
#[derive(Clone, Copy, Debug, PartialEq, Eq, Structural)]
pub enum TimerLoop {
    /// The timer loops indefinitely and never stops by itself.
    Infinite,
    /// The timer stops by itself after the given number of loops.
    Fixed(usize),
}

impl Default for TimerLoop {
    fn default() -> (r: Self)
        ensures
            r == TimerLoop::Infinite,
    {
        TimerLoop::Infinite
    }
}

/// What converting a loop count gives: zero means infinite.
pub open spec fn timer_loop_from(count: usize) -> TimerLoop {
    if count == 0 {
        TimerLoop::Infinite
    } else {
        TimerLoop::Fixed(count)
    }
}

impl From<usize> for TimerLoop {
    fn from(count: usize) -> (r: Self)
        ensures
            r == timer_loop_from(count),
    {
        if count == 0 {
            TimerLoop::Infinite
        } else {
            TimerLoop::Fixed(count)
        }
    }
}

impl vstd::std_specs::convert::FromSpecImpl<usize> for TimerLoop {
    open spec fn obeys_from_spec() -> bool {
        true
    }

    open spec fn from_spec(count: usize) -> Self {
        timer_loop_from(count)
    }
}


/// The abstract value of a timer cycle: its name and its duration.
pub struct TimerCycleView {
    pub name: Seq<char>,
    pub duration: nat,
}

/// A timer cycle: a step of the timer, made of a name and a duration
/// (in seconds).
///
/// In a configuration the duration is the whole length of the cycle;
/// in a running timer it is the time left before the cycle ends.
#[derive(Debug, PartialEq, Eq)]
pub struct TimerCycle {
    /// The name of the timer cycle.
    pub name: String,
    /// The duration of the timer cycle.
    pub duration: usize,
}

impl View for TimerCycle {
    type V = TimerCycleView;

    open spec fn view(&self) -> TimerCycleView {
        TimerCycleView { name: self.name@, duration: self.duration as nat }
    }
}

impl Clone for TimerCycle {
    fn clone(&self) -> (r: Self)
        ensures
            r@ == self@,
    {
        TimerCycle { name: self.name.clone(), duration: self.duration }
    }
}

impl Default for TimerCycle {
    fn default() -> (r: Self)
        ensures
            r@ == (TimerCycleView { name: Seq::empty(), duration: 0 }),
    {
        TimerCycle { name: String::new(), duration: 0 }
    }
}

impl TimerCycle {
    /// Builds a cycle from its name and its duration.
    pub fn new(name: &str, duration: usize) -> (r: Self)
        ensures
            r@ == (TimerCycleView { name: name@, duration: duration as nat }),
    {
        broadcast use vstd::string::group_string_axioms;

        TimerCycle { name: name.to_string(), duration }
    }
}

impl<'a> From<(&'a str, usize)> for TimerCycle {
    fn from(pair: (&'a str, usize)) -> (r: Self)
        ensures
            r@ == (TimerCycleView { name: pair.0@, duration: pair.1 as nat }),
    {
        TimerCycle::new(pair.0, pair.1)
    }
}

// A `String` is determined by its view only up to what std shows, so
// `from` is specified by the `ensures` above, over views.
impl<'a> vstd::std_specs::convert::FromSpecImpl<(&'a str, usize)> for TimerCycle {
    open spec fn obeys_from_spec() -> bool {
        false
    }

    open spec fn from_spec(pair: (&'a str, usize)) -> Self {
        TimerCycle { name: choose|s: String| #[trigger] s@ == pair.0@, duration: pair.1 }
    }
}


/// The abstract values of a list of cycles.
pub open spec fn cycles_view(cycles: Seq<TimerCycle>) -> Seq<TimerCycleView> {
    cycles.map_values(|c: TimerCycle| c@)
}

/// Clones a list of cycles, keeping each cycle's name and duration.
fn clone_cycles(cycles: &Vec<TimerCycle>) -> (r: Vec<TimerCycle>)
    ensures
        cycles_view(r@) == cycles_view(cycles@),
{
    let mut r: Vec<TimerCycle> = Vec::with_capacity(cycles.len());
    for i in 0..cycles.len()
        invariant
            r@.len() == i,
            i <= cycles@.len(),
            forall|j: int| 0 <= j < i ==> #[trigger] r@[j]@ == cycles@[j]@,
    {
        r.push(cycles[i].clone());
    }
    assert(cycles_view(r@) =~= cycles_view(cycles@));
    r
}

/// The list of the cycles of a timer configuration.
#[derive(Debug, PartialEq, Eq)]
pub struct TimerCycles(Vec<TimerCycle>);

impl View for TimerCycles {
    type V = Seq<TimerCycleView>;

    closed spec fn view(&self) -> Seq<TimerCycleView> {
        cycles_view(self.0@)
    }
}

impl Clone for TimerCycles {
    fn clone(&self) -> (r: Self)
        ensures
            r@ == self@,
    {
        TimerCycles(clone_cycles(&self.0))
    }
}

impl Default for TimerCycles {
    fn default() -> (r: Self)
        ensures
            r@ == Seq::<TimerCycleView>::empty(),
    {
        let r = TimerCycles(Vec::new());
        assert(r@ =~= Seq::<TimerCycleView>::empty());
        r
    }
}

impl From<Vec<TimerCycle>> for TimerCycles {
    fn from(cycles: Vec<TimerCycle>) -> (r: Self)
        ensures
            r@ == cycles_view(cycles@),
    {
        TimerCycles(cycles)
    }
}

impl vstd::std_specs::convert::FromSpecImpl<Vec<TimerCycle>> for TimerCycles {
    open spec fn obeys_from_spec() -> bool {
        true
    }

    closed spec fn from_spec(cycles: Vec<TimerCycle>) -> Self {
        TimerCycles(cycles)
    }
}

impl core::ops::Deref for TimerCycles {
    type Target = Vec<TimerCycle>;

    fn deref(&self) -> (r: &Vec<TimerCycle>)
        ensures
            cycles_view(r@) == self@,
    {
        &self.0
    }
}

impl core::ops::DerefMut for TimerCycles {
    fn deref_mut(&mut self) -> (r: &mut Vec<TimerCycle>)
        ensures
            cycles_view(r@) == old(self)@,
            final(self)@ == cycles_view(final(r)@),
    {
        &mut self.0
    }
}


/// The timer state.
#[derive(Clone, Copy, Debug, PartialEq, Eq, Structural)]
pub enum TimerState {
    /// The timer is running.
    Running,
    /// The timer has been paused: it keeps its cycle and its elapsed
    /// time until it is resumed.
    Paused,
    /// The timer is not running.
    Stopped,
}

impl Default for TimerState {
    fn default() -> (r: Self)
        ensures
            r == TimerState::Stopped,
    {
        TimerState::Stopped
    }
}

/// The abstract value of a timer event.
pub enum TimerEventView {
    Started,
    Began(TimerCycleView),
    Running(TimerCycleView),
    SetTo(TimerCycleView),
    Paused(TimerCycleView),
    Resumed(TimerCycleView),
    Ended(TimerCycleView),
    Stopped,
}

/// The events that the timer reports during its lifetime.
#[derive(Debug, PartialEq, Eq)]
pub enum TimerEvent {
    /// The timer started.
    Started,
    /// The timer began the given cycle.
    Began(TimerCycle),
    /// The timer is running the given cycle (tick).
    Running(TimerCycle),
    /// The timer has been set to the given cycle.
    SetTo(TimerCycle),
    /// The timer has been paused at the given cycle.
    Paused(TimerCycle),
    /// The timer has been resumed at the given cycle.
    Resumed(TimerCycle),
    /// The timer ended with the given cycle.
    Ended(TimerCycle),
    /// The timer stopped.
    Stopped,
}

impl View for TimerEvent {
    type V = TimerEventView;

    open spec fn view(&self) -> TimerEventView {
        match self {
            TimerEvent::Started => TimerEventView::Started,
            TimerEvent::Began(c) => TimerEventView::Began(c@),
            TimerEvent::Running(c) => TimerEventView::Running(c@),
            TimerEvent::SetTo(c) => TimerEventView::SetTo(c@),
            TimerEvent::Paused(c) => TimerEventView::Paused(c@),
            TimerEvent::Resumed(c) => TimerEventView::Resumed(c@),
            TimerEvent::Ended(c) => TimerEventView::Ended(c@),
            TimerEvent::Stopped => TimerEventView::Stopped,
        }
    }
}

impl Clone for TimerEvent {
    fn clone(&self) -> (r: Self)
        ensures
            r@ == self@,
    {
        match self {
            TimerEvent::Started => TimerEvent::Started,
            TimerEvent::Began(c) => TimerEvent::Began(c.clone()),
            TimerEvent::Running(c) => TimerEvent::Running(c.clone()),
            TimerEvent::SetTo(c) => TimerEvent::SetTo(c.clone()),
            TimerEvent::Paused(c) => TimerEvent::Paused(c.clone()),
            TimerEvent::Resumed(c) => TimerEvent::Resumed(c.clone()),
            TimerEvent::Ended(c) => TimerEvent::Ended(c.clone()),
            TimerEvent::Stopped => TimerEvent::Stopped,
        }
    }
}

/// The abstract values of a list of events.
pub open spec fn events_view(events: Seq<TimerEvent>) -> Seq<TimerEventView> {
    events.map_values(|e: TimerEvent| e@)
}

/// The abstract value of a timer configuration.
pub struct TimerConfigView {
    pub cycles: Seq<TimerCycleView>,
    pub cycles_count: TimerLoop,
}

/// The timer configuration.
#[derive(Debug)]
pub struct TimerConfig {
    /// The list of the timer cycles.
    pub cycles: TimerCycles,
    /// How many times the cycles are run.
    pub cycles_count: TimerLoop,
}

impl View for TimerConfig {
    type V = TimerConfigView;

    open spec fn view(&self) -> TimerConfigView {
        TimerConfigView { cycles: self.cycles@, cycles_count: self.cycles_count }
    }
}

impl Clone for TimerConfig {
    fn clone(&self) -> (r: Self)
        ensures
            r@ == self@,
    {
        TimerConfig { cycles: self.cycles.clone(), cycles_count: self.cycles_count }
    }
}

impl Default for TimerConfig {
    fn default() -> (r: Self)
        ensures
            r@ == (TimerConfigView { cycles: Seq::empty(), cycles_count: TimerLoop::Infinite }),
    {
        TimerConfig { cycles: TimerCycles::default(), cycles_count: TimerLoop::default() }
    }
}

impl TimerConfig {
    /// A copy of the first configured cycle; an error of kind
    /// `NotFound` when no cycle is configured.
    pub fn clone_first_cycle(&self) -> (r: Result<TimerCycle, std::io::Error>)
        ensures
            r is Ok <==> self@.cycles.len() > 0,
            r matches Ok(c) ==> c@ == self@.cycles[0],
    {
        proof {
            reveal_cycles(&self.cycles);
        }
        if self.cycles.0.len() > 0 {
            Ok(self.cycles.0[0].clone())
        } else {
            Err(not_found_error("cannot find first cycle from timer config"))
        }
    }
}

/// What a list of cycles holds, in terms of its inner vector.
proof fn reveal_cycles(cycles: &TimerCycles)
    ensures
        cycles@ == cycles_view(cycles.0@),
        cycles@.len() == cycles.0@.len(),
        forall|i: int| 0 <= i < cycles.0@.len() ==> #[trigger] cycles@[i] == cycles.0@[i]@,
{
}


/// The abstract value of a timer. Of the instant at which the timer
/// was last started or resumed it keeps only whether there is one.
pub struct TimerView {
    pub config: TimerConfigView,
    pub state: TimerState,
    pub cycle: TimerCycleView,
    pub cycles_count: TimerLoop,
    pub started: bool,
    pub elapsed: nat,
}

/// The sum of the durations of a list of cycles.
pub open spec fn cycles_total(cycles: Seq<TimerCycleView>) -> nat
    decreases cycles.len(),
{
    if cycles.len() == 0 {
        0
    } else {
        cycles_total(cycles.drop_last()) + cycles.last().duration
    }
}

/// The cycle in which a timer is `e` seconds after the start of a
/// loop, with the time left in it; `None` when the cycles last no
/// more than `e` seconds.
pub open spec fn cycle_at(cycles: Seq<TimerCycleView>, e: nat) -> Option<TimerCycleView>
    decreases cycles.len(),
{
    if cycles.len() == 0 {
        None
    } else if e < cycles[0].duration {
        Some(TimerCycleView { name: cycles[0].name, duration: (cycles[0].duration - e) as nat })
    } else {
        cycle_at(cycles.drop_first(), (e - cycles[0].duration) as nat)
    }
}

/// The cycle that a running timer switches to, `e` seconds after the
/// start of a loop: the one of `cycle_at`, else the last cycle with
/// the whole loop duration.
pub open spec fn next_cycle(cycles: Seq<TimerCycleView>, e: nat) -> TimerCycleView {
    match cycle_at(cycles, e) {
        Some(c) => c,
        None => TimerCycleView { name: cycles.last().name, duration: cycles_total(cycles) },
    }
}

/// The inputs on which updating a timer is defined: when it runs, the
/// loop duration (times the loop count when it is fixed) fits in a
/// `usize`, and an infinite loop lasts more than zero seconds.
pub open spec fn can_update(t: TimerView) -> bool {
    t.state == TimerState::Running ==> {
        &&& cycles_total(t.config.cycles) <= usize::MAX
        &&& match t.cycles_count {
            TimerLoop::Fixed(n) => cycles_total(t.config.cycles) * n <= usize::MAX,
            TimerLoop::Infinite => cycles_total(t.config.cycles) > 0,
        }
    }
}

/// What updating a timer gives, `elapsed` seconds after it started:
/// the timer after the update and the events it reports.
pub open spec fn update_spec(t: TimerView, elapsed: nat) -> (TimerView, Seq<TimerEventView>) {
    if t.state != TimerState::Running {
        (t, Seq::empty())
    } else {
        let total = cycles_total(t.config.cycles);
        if t.cycles_count matches TimerLoop::Fixed(n) && elapsed >= total * n {
            (
                TimerView {
                    config: t.config,
                    state: TimerState::Stopped,
                    cycle: t.cycle,
                    cycles_count: t.cycles_count,
                    started: t.started,
                    elapsed: t.elapsed,
                },
                Seq::empty(),
            )
        } else {
            let next = next_cycle(t.config.cycles, elapsed % total);
            let events = if t.cycle.name != next.name {
                seq![
                    TimerEventView::Running(t.cycle),
                    TimerEventView::Ended(TimerCycleView { name: t.cycle.name, duration: 0 }),
                    TimerEventView::Began(next),
                ]
            } else {
                seq![TimerEventView::Running(t.cycle)]
            };
            (
                TimerView {
                    config: t.config,
                    state: t.state,
                    cycle: next,
                    cycles_count: t.cycles_count,
                    started: t.started,
                    elapsed: t.elapsed,
                },
                events,
            )
        }
    }
}

/// What starting a timer gives: a stopped timer runs again from the
/// first configured cycle and the configured loop count, with no
/// elapsed time, and reports that it started and began that cycle;
/// a running or paused timer is left as it is.
pub open spec fn start_spec(t: TimerView) -> (TimerView, Seq<TimerEventView>) {
    if t.state == TimerState::Stopped {
        (
            TimerView {
                state: TimerState::Running,
                cycle: t.config.cycles[0],
                cycles_count: t.config.cycles_count,
                started: true,
                elapsed: 0,
                ..t
            },
            seq![TimerEventView::Started, TimerEventView::Began(t.config.cycles[0])],
        )
    } else {
        (t, Seq::empty())
    }
}

/// What setting the duration of the current cycle gives: the cycle
/// takes the new duration, and the timer reports it.
pub open spec fn set_spec(t: TimerView, duration: nat) -> (TimerView, TimerEventView) {
    let cycle = TimerCycleView { name: t.cycle.name, duration: duration };
    (TimerView { cycle: cycle, ..t }, TimerEventView::SetTo(cycle))
}

/// What pausing a timer gives, `elapsed` being the seconds it has run:
/// a running timer keeps them, forgets its start instant and reports
/// its cycle; another timer is left as it is.
pub open spec fn pause_spec(t: TimerView, elapsed: nat) -> (TimerView, Option<TimerEventView>) {
    if t.state == TimerState::Running {
        (
            TimerView { state: TimerState::Paused, started: false, elapsed: elapsed, ..t },
            Some(TimerEventView::Paused(t.cycle)),
        )
    } else {
        (t, None)
    }
}

/// What resuming a timer gives: a paused timer runs again from a new
/// start instant and reports its cycle; another timer is left as it
/// is.
pub open spec fn resume_spec(t: TimerView) -> (TimerView, Option<TimerEventView>) {
    if t.state == TimerState::Paused {
        (
            TimerView { state: TimerState::Running, started: true, ..t },
            Some(TimerEventView::Resumed(t.cycle)),
        )
    } else {
        (t, None)
    }
}

/// What stopping a timer gives: a running timer reports the end of
/// its cycle and its stop, then goes back to the first configured
/// cycle and the configured loop count, with no elapsed time; another
/// timer is left as it is.
pub open spec fn stop_spec(t: TimerView) -> (TimerView, Seq<TimerEventView>) {
    if t.state == TimerState::Running {
        (
            TimerView {
                state: TimerState::Stopped,
                cycle: t.config.cycles[0],
                cycles_count: t.config.cycles_count,
                started: false,
                elapsed: 0,
                ..t
            },
            seq![TimerEventView::Ended(t.cycle), TimerEventView::Stopped],
        )
    } else {
        (t, Seq::empty())
    }
}

/// The abstract value of an optional event.
pub open spec fn event_option_view(event: Option<TimerEvent>) -> Option<TimerEventView> {
    match event {
        Some(e) => Some(e@),
        None => None,
    }
}

/// The seconds that a timer has run, `secs` being the whole seconds
/// read on the clock since its last start or resume: those counted
/// before, plus `secs` while it has a start instant, saturated at
/// `usize::MAX`.
pub open spec fn elapsed_spec(t: TimerView, secs: u64) -> nat {
    let since: nat = if t.started {
        (secs as usize) as nat
    } else {
        0
    };
    if t.elapsed + since > usize::MAX {
        usize::MAX as nat
    } else {
        t.elapsed + since
    }
}

/// The main timer struct.
#[derive(Debug)]
pub struct Timer {
    /// The timer configuration.
    pub config: TimerConfig,
    /// The timer state.
    pub state: TimerState,
    /// The current cycle, with the time left in it.
    pub cycle: TimerCycle,
    /// The loop counter of the current run.
    pub cycles_count: TimerLoop,
    /// When the timer was last started or resumed, while it runs.
    pub started_at: Option<std::time::Instant>,
    /// The seconds counted before the last start or resume.
    pub elapsed: usize,
}

impl View for Timer {
    type V = TimerView;

    open spec fn view(&self) -> TimerView {
        TimerView {
            config: self.config@,
            state: self.state,
            cycle: self.cycle@,
            cycles_count: self.cycles_count,
            started: self.started_at is Some,
            elapsed: self.elapsed as nat,
        }
    }
}

impl Clone for Timer {
    fn clone(&self) -> (r: Self)
        ensures
            r@ == self@,
            r.started_at == self.started_at,
    {
        Timer {
            config: self.config.clone(),
            state: self.state,
            cycle: self.cycle.clone(),
            cycles_count: self.cycles_count,
            started_at: self.started_at,
            elapsed: self.elapsed,
        }
    }
}

impl Default for Timer {
    fn default() -> (r: Self)
        ensures
            r@ == (TimerView {
                config: TimerConfigView { cycles: Seq::empty(), cycles_count: TimerLoop::Infinite },
                state: TimerState::Stopped,
                cycle: TimerCycleView { name: Seq::empty(), duration: 0 },
                cycles_count: TimerLoop::Infinite,
                started: false,
                elapsed: 0,
            }),
    {
        Timer {
            config: TimerConfig::default(),
            state: TimerState::default(),
            cycle: TimerCycle::default(),
            cycles_count: TimerLoop::default(),
            started_at: None,
            elapsed: 0,
        }
    }
}

impl Timer {
    /// A stopped timer for the given configuration, set on its first
    /// cycle and its loop count.
    pub fn new(config: TimerConfig) -> (r: Self)
        requires
            config@.cycles.len() > 0,
        ensures
            r@ == new_timer_view(config@),
    {
        let cycle = match config.clone_first_cycle() {
            Ok(cycle) => cycle,
            Err(_) => {
                proof {
                    assert(false);
                }
                TimerCycle::default()
            },
        };
        let cycles_count = config.cycles_count;
        Timer { config, state: TimerState::Stopped, cycle, cycles_count, started_at: None, elapsed: 0 }
    }

    /// The seconds the timer has run, `secs` being the whole seconds
    /// since its last start or resume: those counted before it, plus
    /// `secs` while there is a start instant. The sum saturates at
    /// `usize::MAX`.
    pub fn elapsed_after(&self, secs: u64) -> (r: usize)
        ensures
            r == elapsed_spec(self@, secs),
    {
        let since: usize = if self.started_at.is_some() {
            secs as usize
        } else {
            0
        };
        since.saturating_add(self.elapsed)
    }

    /// The seconds the timer has run, the seconds since its last start
    /// or resume being read on the clock (see `elapsed_after`).
    pub fn elapsed(&self) -> (r: usize)
        ensures
            exists|secs: u64| r == #[trigger] elapsed_spec(self@, secs),
            self.started_at is None ==> r == self.elapsed,
    {
        let secs: u64 = match &self.started_at {
            Some(instant) => {
                let duration = elapsed_since(instant);
                whole_secs(&duration)
            },
            None => 0,
        };
        self.elapsed_after(secs)
    }

    /// Updates a running timer, `elapsed` seconds after it was started
    /// (paused time left out): the timer stops when a fixed number of
    /// loops is over, else it moves to the cycle that the elapsed time
    /// falls in, within the current loop. Reports the cycle it was
    /// running, and the end and the beginning of cycles when it
    /// switches to a cycle of another name. A paused or stopped timer
    /// is left as it is.
    pub fn update_with_elapsed(&mut self, elapsed: usize) -> (events: Vec<TimerEvent>)
        requires
            can_update(old(self)@),
        ensures
            (final(self)@, events_view(events@)) == update_spec(old(self)@, elapsed as nat),
            final(self).started_at == old(self).started_at,
    {
        let mut events: Vec<TimerEvent> = Vec::with_capacity(3);
        if self.state != TimerState::Running {
            assert(events_view(events@) =~= Seq::<TimerEventView>::empty());
            return events;
        }
        let ghost view = self.config@.cycles;
        proof {
            reveal_cycles(&self.config.cycles);
        }
        let n = self.config.cycles.0.len();

        // The cycles with their durations summed up to their end.
        let mut cycles: Vec<TimerCycle> = Vec::new();
        let mut sum: usize = 0;
        for i in 0..n
            invariant
                n == view.len(),
                view == cycles_view(self.config.cycles.0@),
                cycles_total(view) <= usize::MAX,
                cycles@.len() == i,
                sum == cycles_total(view.take(i as int)),
                forall|j: int|
                    0 <= j < i ==> #[trigger] cycles@[j]@ == (TimerCycleView {
                        name: view[j].name,
                        duration: cycles_total(view.take(j + 1)),
                    }),
        {
            proof {
                lemma_total_take_next(view, i as int);
                lemma_total_take_monotonic(view, i + 1, n as int);
                assert(view.take(n as int) =~= view);
            }
            let mut cycle = self.config.cycles.0[i].clone();
            cycle.duration = cycle.duration + sum;
            sum = cycle.duration;
            cycles.push(cycle);
        }
        let total_duration = sum;
        proof {
            assert(view.take(n as int) =~= view);
        }

        if let TimerLoop::Fixed(cycles_count) = self.cycles_count {
            if elapsed >= total_duration * cycles_count {
                self.state = TimerState::Stopped;
                assert(events_view(events@) =~= Seq::<TimerEventView>::empty());
                return events;
            }
        }
        proof {
            if total_duration == 0 {
                assert(self.cycles_count is Fixed);
                assert(elapsed >= total_duration * self.cycles_count->Fixed_0) by (nonlinear_arith)
                    requires
                        total_duration == 0,
                ;
            }
        }
        let e = elapsed % total_duration;
        proof {
            if n == 0 {
                assert(view.take(0) =~= Seq::<TimerCycleView>::empty());
            }
        }

        let last_cycle = cycles[n - 1].clone();
        let mut next: Option<TimerCycle> = None;
        let mut i: usize = 0;
        while i < n && next.is_none()
            invariant
                n == view.len(),
                n == cycles@.len(),
                0 <= i <= n,
                e < cycles_total(view),
                forall|j: int|
                    0 <= j < n ==> #[trigger] cycles@[j]@ == (TimerCycleView {
                        name: view[j].name,
                        duration: cycles_total(view.take(j + 1)),
                    }),
                next is None ==> forall|j: int|
                    0 <= j < i ==> e >= #[trigger] cycles_total(view.take(j + 1)),
                next matches Some(c) ==> cycle_at(view, e as nat) == Some(c@),
            decreases n - i,
        {
            assert(cycles@[i as int]@.duration == cycles_total(view.take(i + 1)));
            if e < cycles[i].duration {
                let mut cycle = cycles[i].clone();
                cycle.duration = cycle.duration - e;
                proof {
                    lemma_cycle_at_index(view, e as nat, i as int);
                }
                next = Some(cycle);
            }
            i = i + 1;
        }
        let next_cycle = match next {
            Some(cycle) => cycle,
            None => {
                proof {
                    assert(view.take(n as int) =~= view);
                    assert(e >= cycles_total(view.take((n - 1) + 1)));
                }
                last_cycle
            },
        };

        events.push(TimerEvent::Running(self.cycle.clone()));
        if self.cycle.name != next_cycle.name {
            let mut prev_cycle = self.cycle.clone();
            prev_cycle.duration = 0;
            events.push(TimerEvent::Ended(prev_cycle));
            events.push(TimerEvent::Began(next_cycle.clone()));
        }
        self.cycle = next_cycle;
        proof {
            assert(events_view(events@) =~= update_spec(old(self)@, elapsed as nat).1);
        }
        events
    }

    /// Updates a running timer after the time it has run, read on the
    /// clock (see `update_with_elapsed`). A paused or stopped timer is
    /// left as it is and the clock is not read.
    pub fn update(&mut self) -> (events: Vec<TimerEvent>)
        requires
            can_update(old(self)@),
        ensures
            exists|secs: u64|
                (final(self)@, events_view(events@)) == #[trigger] update_spec(
                    old(self)@,
                    elapsed_spec(old(self)@, secs),
                ),
            final(self).started_at == old(self).started_at,
    {
        if self.state == TimerState::Running {
            let elapsed = self.elapsed();
            self.update_with_elapsed(elapsed)
        } else {
            let events: Vec<TimerEvent> = Vec::with_capacity(3);
            assert(events_view(events@) =~= update_spec(self@, elapsed_spec(self@, 0)).1);
            events
        }
    }

    /// Starts a stopped timer on its first configured cycle.
    pub fn start(&mut self) -> (events: Vec<TimerEvent>)
        requires
            old(self).state == TimerState::Stopped ==> old(self)@.config.cycles.len() > 0,
        ensures
            (final(self)@, events_view(events@)) == start_spec(old(self)@),
            old(self).state != TimerState::Stopped ==> final(self).started_at == old(self).started_at,
            old(self).state == TimerState::Stopped ==> {
                &&& final(self).state == TimerState::Running
                &&& final(self).cycle@ == old(self)@.config.cycles[0]
                &&& final(self).cycles_count == old(self).config.cycles_count
                &&& final(self).started_at is Some
                &&& final(self).elapsed == 0
                &&& final(self)@.config == old(self)@.config
                &&& events_view(events@) == seq![
                    TimerEventView::Started,
                    TimerEventView::Began(old(self)@.config.cycles[0]),
                ]
            },
            old(self).state != TimerState::Stopped ==> final(self)@ == old(self)@ && events@.len()
                == 0,
    {
        let mut events: Vec<TimerEvent> = Vec::with_capacity(2);
        if self.state == TimerState::Stopped {
            self.state = TimerState::Running;
            self.cycle = match self.config.clone_first_cycle() {
                Ok(cycle) => cycle,
                Err(_) => {
                    proof {
                        assert(false);
                    }
                    TimerCycle::default()
                },
            };
            self.cycles_count = self.config.cycles_count;
            self.started_at = Some(instant_now());
            self.elapsed = 0;
            events.push(TimerEvent::Started);
            events.push(TimerEvent::Began(self.cycle.clone()));
        }
        assert(events_view(events@) =~= start_spec(old(self)@).1);
        events
    }

    /// Sets the duration of the current cycle.
    pub fn set(&mut self, duration: usize) -> (event: Option<TimerEvent>)
        ensures
            final(self)@ == set_spec(old(self)@, duration as nat).0,
            event_option_view(event) == Some(set_spec(old(self)@, duration as nat).1),
            final(self).started_at == old(self).started_at,
            final(self).cycle@ == (TimerCycleView {
                name: old(self).cycle@.name,
                duration: duration as nat,
            }),
            event_option_view(event) == Some(TimerEventView::SetTo(final(self).cycle@)),
            final(self).state == old(self).state,
            final(self).cycles_count == old(self).cycles_count,
            final(self).elapsed == old(self).elapsed,
            final(self)@.config == old(self)@.config,
    {
        self.cycle.duration = duration;
        Some(TimerEvent::SetTo(self.cycle.clone()))
    }

    /// Pauses a running timer that has run for `elapsed` seconds: it
    /// keeps them, forgets its start instant and reports its cycle. Any
    /// other timer is left as it is.
    pub fn pause_at(&mut self, elapsed: usize) -> (event: Option<TimerEvent>)
        ensures
            (final(self)@, event_option_view(event)) == pause_spec(old(self)@, elapsed as nat),
            old(self).state == TimerState::Running ==> final(self).started_at is None,
            old(self).state != TimerState::Running ==> final(self).started_at == old(self).started_at,
            old(self).state == TimerState::Running ==> {
                &&& final(self).state == TimerState::Paused
                &&& final(self).elapsed == elapsed
                &&& final(self).cycle@ == old(self).cycle@
                &&& final(self).cycles_count == old(self).cycles_count
                &&& final(self)@.config == old(self)@.config
                &&& event_option_view(event) == Some(TimerEventView::Paused(old(self).cycle@))
            },
            old(self).state != TimerState::Running ==> final(self)@ == old(self)@ && event is None,
    {
        if self.state == TimerState::Running {
            self.state = TimerState::Paused;
            self.elapsed = elapsed;
            self.started_at = None;
            Some(TimerEvent::Paused(self.cycle.clone()))
        } else {
            None
        }
    }

    /// Pauses a running timer: it keeps the time it has run, read on
    /// the clock (see `elapsed` and `pause_at`).
    pub fn pause(&mut self) -> (event: Option<TimerEvent>)
        ensures
            exists|secs: u64|
                (final(self)@, event_option_view(event)) == #[trigger] pause_spec(
                    old(self)@,
                    elapsed_spec(old(self)@, secs),
                ),
            old(self).state == TimerState::Running ==> final(self).started_at is None,
            old(self).state != TimerState::Running ==> final(self).started_at == old(self).started_at,
    {
        if self.state == TimerState::Running {
            let elapsed = self.elapsed();
            self.pause_at(elapsed)
        } else {
            let event = self.pause_at(self.elapsed);
            assert(pause_spec(old(self)@, elapsed_spec(old(self)@, 0)) == pause_spec(
                old(self)@,
                old(self).elapsed as nat,
            ));
            event
        }
    }

    /// Resumes a paused timer from now.
    pub fn resume(&mut self) -> (event: Option<TimerEvent>)
        ensures
            (final(self)@, event_option_view(event)) == resume_spec(old(self)@),
            old(self).state != TimerState::Paused ==> final(self).started_at == old(self).started_at,
            old(self).state != TimerState::Paused ==> final(self)@ == old(self)@ && event is None,
            old(self).state == TimerState::Paused ==> {
                &&& final(self).state == TimerState::Running
                &&& final(self).started_at is Some
                &&& final(self).cycle@ == old(self).cycle@
                &&& final(self).elapsed == old(self).elapsed
                &&& final(self).cycles_count == old(self).cycles_count
                &&& final(self)@.config == old(self)@.config
                &&& event_option_view(event) == Some(TimerEventView::Resumed(old(self).cycle@))
            },
    {
        if self.state == TimerState::Paused {
            self.state = TimerState::Running;
            self.started_at = Some(instant_now());
            Some(TimerEvent::Resumed(self.cycle.clone()))
        } else {
            None
        }
    }

    /// Stops a running timer and sets it back on its first configured
    /// cycle.
    pub fn stop(&mut self) -> (events: Vec<TimerEvent>)
        requires
            old(self).state == TimerState::Running ==> old(self)@.config.cycles.len() > 0,
        ensures
            (final(self)@, events_view(events@)) == stop_spec(old(self)@),
            old(self).state != TimerState::Running ==> final(self).started_at == old(self).started_at,
    {
        let mut events: Vec<TimerEvent> = Vec::with_capacity(2);
        if self.state == TimerState::Running {
            self.state = TimerState::Stopped;
            events.push(TimerEvent::Ended(self.cycle.clone()));
            events.push(TimerEvent::Stopped);
            self.cycle = match self.config.clone_first_cycle() {
                Ok(cycle) => cycle,
                Err(_) => {
                    proof {
                        assert(false);
                    }
                    TimerCycle::default()
                },
            };
            self.cycles_count = self.config.cycles_count;
            self.started_at = None;
            self.elapsed = 0;
        }
        assert(events_view(events@) =~= stop_spec(old(self)@).1);
        events
    }
}


/// Two timers are equal when they have the same state, the same
/// current cycle and have run for the same time. The time is read on
/// the clock, so `==` on timers follows no fixed specification.
impl PartialEq for Timer {
    fn eq(&self, other: &Self) -> (r: bool)
        ensures
            r ==> self.state == other.state && self.cycle@ == other.cycle@,
            self.state == other.state && self.cycle@ == other.cycle@ ==> exists|
                secs: u64,
                other_secs: u64,
            |
                #![trigger elapsed_spec(self@, secs), elapsed_spec(other@, other_secs)]
                r == (elapsed_spec(self@, secs) == elapsed_spec(other@, other_secs)),
            self.started_at is None && other.started_at is None ==> r == (self.state
                == other.state && self.cycle@ == other.cycle@ && self.elapsed == other.elapsed),
    {
        if self.state == other.state && self.cycle.name == other.cycle.name
            && self.cycle.duration == other.cycle.duration {
            let elapsed = self.elapsed();
            let other_elapsed = other.elapsed();
            proof {
                let secs = choose|secs: u64| elapsed == #[trigger] elapsed_spec(self@, secs);
                let other_secs = choose|secs: u64|
                    other_elapsed == #[trigger] elapsed_spec(other@, secs);
                assert((elapsed == other_elapsed) == (elapsed_spec(self@, secs) == elapsed_spec(
                    other@,
                    other_secs,
                )));
            }
            elapsed == other_elapsed
        } else {
            false
        }
    }
}

impl vstd::std_specs::cmp::PartialEqSpecImpl for Timer {
    open spec fn obeys_eq_spec() -> bool {
        false
    }

    open spec fn eq_spec(&self, other: &Self) -> bool {
        self.state == other.state && self.cycle@ == other.cycle@
    }
}

impl Eq for Timer {

}

/// The total of a list of cycles is its first duration plus the total
/// of the rest.
proof fn lemma_total_drop_first(cycles: Seq<TimerCycleView>)
    requires
        cycles.len() > 0,
    ensures
        cycles_total(cycles) == cycles[0].duration + cycles_total(cycles.drop_first()),
    decreases cycles.len(),
{
    if cycles.len() > 1 {
        lemma_total_drop_first(cycles.drop_last());
        assert(cycles.drop_last().drop_first() =~= cycles.drop_first().drop_last());
        assert(cycles.drop_first().last() == cycles.last());
        assert(cycles_total(cycles.drop_first()) == cycles_total(cycles.drop_first().drop_last())
            + cycles.drop_first().last().duration);
    } else {
        assert(cycles.drop_first() =~= Seq::<TimerCycleView>::empty());
        assert(cycles.drop_last() =~= Seq::<TimerCycleView>::empty());
    }
}

/// Adding one more cycle to a prefix adds its duration to the total.
proof fn lemma_total_take_next(cycles: Seq<TimerCycleView>, i: int)
    requires
        0 <= i < cycles.len(),
    ensures
        cycles_total(cycles.take(i + 1)) == cycles_total(cycles.take(i)) + cycles[i].duration,
{
    assert(cycles.take(i + 1).drop_last() =~= cycles.take(i));
}

/// The totals of the prefixes of a list grow with the prefix.
proof fn lemma_total_take_monotonic(cycles: Seq<TimerCycleView>, i: int, j: int)
    requires
        0 <= i <= j <= cycles.len(),
    ensures
        cycles_total(cycles.take(i)) <= cycles_total(cycles.take(j)),
    decreases j - i,
{
    if i < j {
        lemma_total_take_monotonic(cycles, i, j - 1);
        lemma_total_take_next(cycles, j - 1);
    }
}

/// Where the first prefix whose total exceeds `e` ends with cycle `i`,
/// `cycle_at` finds cycle `i`, with the rest of that prefix.
proof fn lemma_cycle_at_index(cycles: Seq<TimerCycleView>, e: nat, i: int)
    requires
        0 <= i < cycles.len(),
        forall|j: int| 0 <= j < i ==> e >= #[trigger] cycles_total(cycles.take(j + 1)),
        e < cycles_total(cycles.take(i + 1)),
    ensures
        cycle_at(cycles, e) == Some(
            TimerCycleView {
                name: cycles[i].name,
                duration: (cycles_total(cycles.take(i + 1)) - e) as nat,
            },
        ),
    decreases i,
{
    lemma_total_take_next(cycles, 0);
    assert(cycles.take(0) =~= Seq::<TimerCycleView>::empty());
    if i > 0 {
        assert(e >= cycles_total(cycles.take(0int + 1)));
        let rest = cycles.drop_first();
        let e2 = (e - cycles[0].duration) as nat;
        assert forall|j: int| 0 <= j < i + 1 implies cycles_total(rest.take(j))
            == cycles_total(#[trigger] cycles.take(j + 1)) - cycles[0].duration by {
            lemma_total_drop_first(cycles.take(j + 1));
            assert(cycles.take(j + 1).drop_first() =~= rest.take(j));
        }
        assert forall|j: int| 0 <= j < i - 1 implies e2 >= #[trigger] cycles_total(
            rest.take(j + 1),
        ) by {
            assert(cycles_total(rest.take(j + 1)) == cycles_total(cycles.take(j + 1 + 1))
                - cycles[0].duration);
            assert(e >= cycles_total(cycles.take((j + 1) + 1)));
        }
        assert(cycles_total(rest.take(i)) == cycles_total(cycles.take(i + 1)) - cycles[0].duration);
        lemma_cycle_at_index(rest, e2, i - 1);
        assert(rest[i - 1] == cycles[i]);
    }
}

/// Within a loop, a running timer is always in one of its configured
/// cycles, with some time left that is no more than the duration of
/// that cycle.
pub proof fn lemma_cycle_at_configured(cycles: Seq<TimerCycleView>, e: nat)
    requires
        e < cycles_total(cycles),
    ensures
        cycle_at(cycles, e) is Some,
        exists|i: int|
            0 <= i < cycles.len() && #[trigger] cycles[i].name == cycle_at(cycles, e)->0.name
                && 0 < cycle_at(cycles, e)->0.duration <= cycles[i].duration,
    decreases cycles.len(),
{
    if cycles.len() == 0 {
        assert(cycles_total(cycles) == 0);
    } else {
        lemma_total_drop_first(cycles);
        if e < cycles[0].duration {
            assert(cycles[0].name == cycle_at(cycles, e)->0.name);
        } else {
            let rest = cycles.drop_first();
            lemma_cycle_at_configured(rest, (e - cycles[0].duration) as nat);
            let i = choose|i: int|
                0 <= i < rest.len() && #[trigger] rest[i].name == cycle_at(
                    rest,
                    (e - cycles[0].duration) as nat,
                )->0.name && 0 < cycle_at(rest, (e - cycles[0].duration) as nat)->0.duration
                    <= rest[i].duration;
            assert(cycles[i + 1].name == cycle_at(cycles, e)->0.name);
        }
    }
}

/// After an update that keeps it running, a timer is in one of its
/// configured cycles, with some time left that is no more than the
/// duration of that cycle.
pub proof fn lemma_update_stays_in_configured_cycle(t: TimerView, elapsed: nat)
    requires
        can_update(t),
        update_spec(t, elapsed).0.state == TimerState::Running,
    ensures
        exists|i: int|
            0 <= i < t.config.cycles.len() && #[trigger] t.config.cycles[i].name
                == update_spec(t, elapsed).0.cycle.name && 0 < update_spec(t, elapsed).0.cycle.duration
                <= t.config.cycles[i].duration,
{
    let total = cycles_total(t.config.cycles);
    if total == 0 {
        assert(t.cycles_count is Fixed);
        assert(elapsed >= total * t.cycles_count->Fixed_0) by (nonlinear_arith)
            requires
                total == 0,
        ;
    }
    lemma_cycle_at_configured(t.config.cycles, elapsed % total);
}

/// An update leaves a paused or stopped timer as it is and reports
/// nothing.
pub proof fn lemma_update_idle(t: TimerView, elapsed: nat)
    requires
        t.state != TimerState::Running,
    ensures
        update_spec(t, elapsed) == (t, Seq::<TimerEventView>::empty()),
{
}

/// A timer that loops indefinitely is in the same cycle, with the same
/// time left, one whole loop later.
pub proof fn lemma_update_periodic(t: TimerView, elapsed: nat)
    requires
        can_update(t),
        t.cycles_count == TimerLoop::Infinite,
    ensures
        update_spec(t, elapsed + cycles_total(t.config.cycles)) == update_spec(t, elapsed),
{
    if t.state == TimerState::Running {
        let total = cycles_total(t.config.cycles);
        vstd::arithmetic::div_mod::lemma_mod_add_multiples_vanish(elapsed as int, total as int);
    }
}

/// A timer that loops indefinitely never stops by itself: an update
/// keeps its state.
pub proof fn lemma_infinite_never_stops(t: TimerView, elapsed: nat)
    requires
        t.cycles_count == TimerLoop::Infinite,
    ensures
        update_spec(t, elapsed).0.state == t.state,
{
}

/// A timer with a fixed number of loops stops by itself once that many
/// loops have elapsed, and reports nothing.
pub proof fn lemma_update_fixed_loops_end(t: TimerView, elapsed: nat)
    requires
        t.state == TimerState::Running,
        t.cycles_count matches TimerLoop::Fixed(n) && elapsed >= cycles_total(t.config.cycles) * n,
    ensures
        update_spec(t, elapsed).0.state == TimerState::Stopped,
        update_spec(t, elapsed).1 == Seq::<TimerEventView>::empty(),
{
}

/// Pausing a running timer then resuming it gives the timer back,
/// running from a new start, with the time it had run counted.
pub proof fn lemma_pause_resume(t: TimerView, elapsed: nat)
    requires
        t.state == TimerState::Running,
    ensures
        resume_spec(pause_spec(t, elapsed).0).0 == (TimerView { started: true, elapsed: elapsed, ..t }),
        pause_spec(t, elapsed).1 == Some(TimerEventView::Paused(t.cycle)),
        resume_spec(pause_spec(t, elapsed).0).1 == Some(TimerEventView::Resumed(t.cycle)),
{
}

/// The view of the timer that `Timer::new` builds from a configuration.
pub open spec fn new_timer_view(config: TimerConfigView) -> TimerView {
    TimerView {
        config: config,
        state: TimerState::Stopped,
        cycle: config.cycles[0],
        cycles_count: config.cycles_count,
        started: false,
        elapsed: 0,
    }
}

/// Starting a timer then stopping it gives back the timer that the
/// configuration builds, whatever the timer was before it was stopped;
/// what it reports is the start, then the end of the first cycle and
/// the stop.
pub proof fn lemma_start_stop(t: TimerView)
    requires
        t.state == TimerState::Stopped,
        t.config.cycles.len() > 0,
    ensures
        stop_spec(start_spec(t).0).0 == new_timer_view(t.config),
        start_spec(t).1 + stop_spec(start_spec(t).0).1 == seq![
            TimerEventView::Started,
            TimerEventView::Began(t.config.cycles[0]),
            TimerEventView::Ended(t.config.cycles[0]),
            TimerEventView::Stopped,
        ],
{
    assert(start_spec(t).1 + stop_spec(start_spec(t).0).1 =~= seq![
        TimerEventView::Started,
        TimerEventView::Began(t.config.cycles[0]),
        TimerEventView::Ended(t.config.cycles[0]),
        TimerEventView::Stopped,
    ]);
}

/// Setting a duration twice is setting the last one.
pub proof fn lemma_set_set(t: TimerView, first: nat, second: nat)
    ensures
        set_spec(set_spec(t, first).0, second) == set_spec(t, second),
{
}

/// An operation on a timer, as the specifications see it: a start, a
/// new duration, an update or a pause after the given seconds, a
/// resume.
pub enum TimerOp {
    Start,
    SetTo(nat),
    Update(nat),
    Pause(nat),
    Resume,
}

/// The timer that an operation gives.
pub open spec fn apply_op(t: TimerView, op: TimerOp) -> TimerView {
    match op {
        TimerOp::Start => start_spec(t).0,
        TimerOp::SetTo(duration) => set_spec(t, duration).0,
        TimerOp::Update(elapsed) => update_spec(t, elapsed).0,
        TimerOp::Pause(elapsed) => pause_spec(t, elapsed).0,
        TimerOp::Resume => resume_spec(t).0,
    }
}

/// The timer that a sequence of operations gives, in order.
pub open spec fn apply_ops(t: TimerView, ops: Seq<TimerOp>) -> TimerView
    decreases ops.len(),
{
    if ops.len() == 0 {
        t
    } else {
        apply_ops(apply_op(t, ops[0]), ops.drop_first())
    }
}

/// No operation changes the configuration of a timer.
pub proof fn lemma_ops_keep_config(t: TimerView, ops: Seq<TimerOp>)
    ensures
        apply_ops(t, ops).config == t.config,
    decreases ops.len(),
{
    if ops.len() > 0 {
        lemma_ops_keep_config(apply_op(t, ops[0]), ops.drop_first());
    }
}

/// Stopping a timer that runs, whatever was done to it since it was
/// built and started, gives back the timer that its configuration
/// builds.
pub proof fn lemma_stop_after_ops(config: TimerConfigView, ops: Seq<TimerOp>)
    requires
        config.cycles.len() > 0,
        apply_ops(start_spec(new_timer_view(config)).0, ops).state == TimerState::Running,
    ensures
        stop_spec(apply_ops(start_spec(new_timer_view(config)).0, ops)).0 == new_timer_view(
            config,
        ),
{
    lemma_ops_keep_config(start_spec(new_timer_view(config)).0, ops);
}

/// Whether every operation of a sequence is an update.
pub open spec fn only_updates(ops: Seq<TimerOp>) -> bool {
    forall|i: int| 0 <= i < ops.len() ==> #[trigger] ops[i] is Update
}

/// Any number of updates leave a paused or stopped timer as it is.
pub proof fn lemma_updates_keep_idle_timer(t: TimerView, ops: Seq<TimerOp>)
    requires
        t.state != TimerState::Running,
        only_updates(ops),
    ensures
        apply_ops(t, ops) == t,
    decreases ops.len(),
{
    if ops.len() > 0 {
        assert(ops[0] is Update);
        assert(only_updates(ops.drop_first())) by {
            assert forall|i: int| 0 <= i < ops.drop_first().len() implies #[trigger] ops.drop_first()[i] is Update by {
                assert(ops[i + 1] is Update);
            }
        }
        lemma_updates_keep_idle_timer(t, ops.drop_first());
    }
}

/// A paused timer keeps its state, its cycle and the seconds it had run
/// through any number of updates, and reads those seconds whatever the
/// clock says.
pub proof fn lemma_paused_timer_frozen(t: TimerView, elapsed: nat, ops: Seq<TimerOp>, secs: u64)
    requires
        t.state == TimerState::Running,
        elapsed <= usize::MAX,
        only_updates(ops),
    ensures
        apply_ops(pause_spec(t, elapsed).0, ops) == pause_spec(t, elapsed).0,
        apply_ops(pause_spec(t, elapsed).0, ops).state == TimerState::Paused,
        apply_ops(pause_spec(t, elapsed).0, ops).cycle == t.cycle,
        elapsed_spec(apply_ops(pause_spec(t, elapsed).0, ops), secs) == elapsed,
{
    lemma_updates_keep_idle_timer(pause_spec(t, elapsed).0, ops);
}

/// The seconds a timer reads grow with the seconds read on the clock,
/// as long as those fit in a `usize`.
pub proof fn lemma_elapsed_grows(t: TimerView, secs: u64, later: u64)
    requires
        secs <= later,
        later <= usize::MAX,
    ensures
        elapsed_spec(t, secs) <= elapsed_spec(t, later),
{
}

/// Starting a stopped timer puts it on its first configured cycle with
/// its configured loop count, running from no elapsed time, and reports
/// that it started and began that cycle; starting any other timer does
/// nothing.
pub proof fn lemma_start_law(t: TimerView)
    ensures
        t.state == TimerState::Stopped ==> {
            &&& start_spec(t).0.state == TimerState::Running
            &&& start_spec(t).0.cycle == t.config.cycles[0]
            &&& start_spec(t).0.cycles_count == t.config.cycles_count
            &&& start_spec(t).0.config == t.config
            &&& start_spec(t).0.started
            &&& start_spec(t).0.elapsed == 0
            &&& start_spec(t).1 == seq![
                TimerEventView::Started,
                TimerEventView::Began(t.config.cycles[0]),
            ]
        },
        t.state != TimerState::Stopped ==> start_spec(t).0 == t && start_spec(t).1.len() == 0,
{
}

/// A timer configured for `n` loops, started then updated once all of
/// them have elapsed, is stopped by itself and reports nothing.
pub proof fn lemma_start_then_fixed_loops_end(t: TimerView, n: usize, elapsed: nat)
    requires
        t.state == TimerState::Stopped,
        t.config.cycles.len() > 0,
        t.config.cycles_count == TimerLoop::Fixed(n),
        elapsed >= cycles_total(t.config.cycles) * n,
    ensures
        update_spec(start_spec(t).0, elapsed).0.state == TimerState::Stopped,
        update_spec(start_spec(t).0, elapsed).1.len() == 0,
{
    lemma_start_law(t);
}

/// A timer configured to loop indefinitely, started then updated, is
/// still running however much time has elapsed.
pub proof fn lemma_start_then_infinite_runs(t: TimerView, elapsed: nat)
    requires
        t.state == TimerState::Stopped,
        t.config.cycles.len() > 0,
        t.config.cycles_count == TimerLoop::Infinite,
    ensures
        update_spec(start_spec(t).0, elapsed).0.state == TimerState::Running,
{
    lemma_start_law(t);
}

/// Resuming a paused timer makes it run again from a new start instant,
/// on the same cycle with the same elapsed time, and reports its cycle;
/// resuming any other timer does nothing and reports nothing.
pub proof fn lemma_resume_law(t: TimerView)
    ensures
        t.state != TimerState::Paused ==> resume_spec(t) == (t, None::<TimerEventView>),
        t.state == TimerState::Paused ==> {
            &&& resume_spec(t).0.state == TimerState::Running
            &&& resume_spec(t).0.started
            &&& resume_spec(t).0.cycle == t.cycle
            &&& resume_spec(t).0.elapsed == t.elapsed
            &&& resume_spec(t).0.cycles_count == t.cycles_count
            &&& resume_spec(t).0.config == t.config
            &&& resume_spec(t).1 == Some(TimerEventView::Resumed(t.cycle))
        },
{
}

/// Resuming a timer that was never started leaves it stopped.
pub proof fn lemma_resume_new_timer(config: TimerConfigView)
    ensures
        resume_spec(new_timer_view(config)).0 == new_timer_view(config),
        resume_spec(new_timer_view(config)).1 is None,
{
    lemma_resume_law(new_timer_view(config));
}

/// Setting a duration, whatever the state of the timer, gives its
/// current cycle that duration under the same name, changes nothing
/// else, and reports the new cycle.
pub proof fn lemma_set_law(t: TimerView, duration: nat)
    ensures
        set_spec(t, duration).0.cycle == (TimerCycleView { name: t.cycle.name, duration: duration }),
        set_spec(t, duration).0.state == t.state,
        set_spec(t, duration).0.config == t.config,
        set_spec(t, duration).0.cycles_count == t.cycles_count,
        set_spec(t, duration).0.started == t.started,
        set_spec(t, duration).0.elapsed == t.elapsed,
        set_spec(t, duration).1 == TimerEventView::SetTo(set_spec(t, duration).0.cycle),
{
}

/// Pausing a running timer keeps the given elapsed seconds, its cycle,
/// configuration and loop count, forgets its start instant and reports
/// its cycle; pausing any other timer does nothing.
pub proof fn lemma_pause_law(t: TimerView, elapsed: nat)
    ensures
        t.state != TimerState::Running ==> pause_spec(t, elapsed) == (t, None::<TimerEventView>),
        t.state == TimerState::Running ==> {
            &&& pause_spec(t, elapsed).0.state == TimerState::Paused
            &&& pause_spec(t, elapsed).0.elapsed == elapsed
            &&& !pause_spec(t, elapsed).0.started
            &&& pause_spec(t, elapsed).0.cycle == t.cycle
            &&& pause_spec(t, elapsed).0.config == t.config
            &&& pause_spec(t, elapsed).0.cycles_count == t.cycles_count
            &&& pause_spec(t, elapsed).1 == Some(TimerEventView::Paused(t.cycle))
        },
{
}

/// Pausing keeps the time a timer has run: a running timer paused when
/// the clock reads `before` seconds since its start, then resumed and
/// read `after` seconds later, has run as long as the same timer read
/// `before + after` seconds without a pause, and an update then puts it
/// on the same cycle with the same events. Only the seconds counted
/// before the last start differ: they now hold the `before` seconds.
pub proof fn lemma_pause_keeps_time(t: TimerView, before: u64, after: u64)
    requires
        t.state == TimerState::Running,
        t.started,
        can_update(t),
        t.elapsed + before + after <= usize::MAX,
    ensures
        ({
            let resumed = resume_spec(pause_spec(t, elapsed_spec(t, before)).0).0;
            let total = elapsed_spec(t, (before + after) as u64);
            &&& resumed.elapsed == t.elapsed + before
            &&& elapsed_spec(resumed, after) == total
            &&& elapsed_spec(resumed, after) == t.elapsed + before + after
            &&& update_spec(resumed, elapsed_spec(resumed, after)).1 == update_spec(t, total).1
            &&& update_spec(resumed, elapsed_spec(resumed, after)).0 == (TimerView {
                elapsed: (t.elapsed + before) as nat,
                ..update_spec(t, total).0
            })
        }),
{
}

/// A timer read `secs` seconds on the clock after it was started has run
/// exactly those seconds, and an update then moves it to the cycle those
/// seconds fall in within the current loop, or stops it once a fixed
/// number of loops is over.
pub proof fn lemma_started_timer_follows_clock(t: TimerView, secs: u64)
    requires
        t.state == TimerState::Stopped,
        t.config.cycles.len() > 0,
        can_update(start_spec(t).0),
        secs <= usize::MAX,
    ensures
        ({
            let started = start_spec(t).0;
            let total = cycles_total(t.config.cycles);
            &&& elapsed_spec(started, secs) == secs
            &&& (t.config.cycles_count matches TimerLoop::Fixed(n) && secs >= total * n)
                ==> update_spec(started, elapsed_spec(started, secs)).0.state
                == TimerState::Stopped
            &&& !(t.config.cycles_count matches TimerLoop::Fixed(n) && secs >= total * n) ==> {
                &&& update_spec(started, elapsed_spec(started, secs)).0.state
                    == TimerState::Running
                &&& update_spec(started, elapsed_spec(started, secs)).0.cycle == next_cycle(
                    t.config.cycles,
                    secs as nat % total,
                )
            }
        }),
{
    lemma_start_law(t);
}

/// The cycle that an update lands on, `e` seconds into a loop: its name
/// is that of the first cycle whose end is after `e`, and its time left
/// runs to that end.
pub proof fn lemma_update_lands_on_cycle(cycles: Seq<TimerCycleView>, e: nat, i: int)
    requires
        0 <= i < cycles.len(),
        forall|j: int| 0 <= j < i ==> e >= #[trigger] cycles_total(cycles.take(j + 1)),
        e < cycles_total(cycles.take(i + 1)),
    ensures
        next_cycle(cycles, e) == (TimerCycleView {
            name: cycles[i].name,
            duration: (cycles_total(cycles.take(i + 1)) - e) as nat,
        }),
{
    lemma_cycle_at_index(cycles, e, i);
}

} // verus!
