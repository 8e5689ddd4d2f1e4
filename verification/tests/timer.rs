use std::time::Instant;

use io_timer::timer::{
    TimerConfig, TimerCycle, TimerCycles, TimerEvent, TimerLoop, TimerState,
};
use io_timer::Timer;

fn testing_timer() -> Timer {
    Timer {
        config: TimerConfig {
            cycles: TimerCycles::from(vec![
                TimerCycle::new("a", 3),
                TimerCycle::new("b", 2),
                TimerCycle::new("c", 1),
            ]),
            ..Default::default()
        },
        state: TimerState::Running,
        cycle: TimerCycle::new("a", 3),
        started_at: Some(Instant::now()),
        ..Default::default()
    }
}

/// A clock that the tests move forward by hand: the seconds elapsed
/// since the testing timer started.
struct Clock(usize);

impl Clock {
    fn advance(&mut self, secs: usize) -> usize {
        self.0 += secs;
        self.0
    }
}

#[test]
fn running_infinite_timer() {
    let mut timer = testing_timer();
    let mut clock = Clock(0);

    assert_eq!(timer.state, TimerState::Running);
    assert_eq!(timer.cycle, TimerCycle::new("a", 3));

    // next ticks: state should still be running, cycle name
    // should be the same and cycle duration should be decremented
    // by 2
    timer.update_with_elapsed(clock.advance(2));

    assert_eq!(timer.state, TimerState::Running);
    assert_eq!(timer.cycle, TimerCycle::new("a", 1));

    // next tick: state should still be running, cycle should
    // switch to the next one
    timer.update_with_elapsed(clock.advance(1));

    assert_eq!(timer.state, TimerState::Running);
    assert_eq!(timer.cycle, TimerCycle::new("b", 2));

    // next ticks: state should still be running, cycle should
    // switch to the next one
    timer.update_with_elapsed(clock.advance(2));

    assert_eq!(timer.state, TimerState::Running);
    assert_eq!(timer.cycle, TimerCycle::new("c", 1));

    // next tick: state should still be running, cycle should
    // switch back to the first one
    timer.update_with_elapsed(clock.advance(1));

    assert_eq!(timer.state, TimerState::Running);
    assert_eq!(timer.cycle, TimerCycle::new("a", 3));
}

#[test]
fn running_timer_events() {
    let mut timer = testing_timer();
    let mut clock = Clock(0);
    let mut events = Vec::new();

    // from a3 to b1
    events.extend(timer.update_with_elapsed(clock.advance(1)));
    events.extend(timer.update_with_elapsed(clock.advance(1)));
    events.extend(timer.update_with_elapsed(clock.advance(1)));
    events.extend(timer.update_with_elapsed(clock.advance(1)));

    assert_eq!(
        events,
        vec![
            TimerEvent::Running(TimerCycle::new("a", 3)),
            TimerEvent::Running(TimerCycle::new("a", 2)),
            TimerEvent::Running(TimerCycle::new("a", 1)),
            TimerEvent::Ended(TimerCycle::new("a", 0)),
            TimerEvent::Began(TimerCycle::new("b", 2)),
            TimerEvent::Running(TimerCycle::new("b", 2)),
        ]
    );
}

#[test]
fn paused_timer_not_impacted_by_iterator() {
    let mut timer = testing_timer();
    timer.state = TimerState::Paused;
    let prev_timer = timer.clone();
    timer.update();
    assert_eq!(prev_timer, timer);
}

#[test]
fn stopped_timer_not_impacted_by_iterator() {
    let mut timer = testing_timer();
    timer.state = TimerState::Stopped;
    let prev_timer = timer.clone();
    timer.update();
    assert_eq!(prev_timer, timer);
}

#[test]
fn thread_safe_timer() {
    let mut timer = Timer::default();
    timer.config = testing_timer().config;
    timer.cycle = timer.config.clone_first_cycle().unwrap();
    timer.cycles_count = timer.config.cycles_count.clone();

    let mut events = Vec::new();

    assert_eq!(timer.state, TimerState::Stopped);
    assert_eq!(timer.cycle, TimerCycle::new("a", 3));

    events.extend(timer.start());
    events.extend(timer.set(21));

    assert_eq!(timer.state, TimerState::Running);
    assert_eq!(timer.cycle, TimerCycle::new("a", 21));

    events.extend(timer.pause());

    assert_eq!(timer.state, TimerState::Paused);
    assert_eq!(timer.cycle, TimerCycle::new("a", 21));

    events.extend(timer.resume());

    assert_eq!(timer.state, TimerState::Running);
    assert_eq!(timer.cycle, TimerCycle::new("a", 21));

    events.extend(timer.stop());

    assert_eq!(timer.state, TimerState::Stopped);
    assert_eq!(timer.cycle, TimerCycle::new("a", 3));

    assert_eq!(
        events,
        vec![
            TimerEvent::Started,
            TimerEvent::Began(TimerCycle::new("a", 3)),
            TimerEvent::SetTo(TimerCycle::new("a", 21)),
            TimerEvent::Paused(TimerCycle::new("a", 21)),
            TimerEvent::Resumed(TimerCycle::new("a", 21)),
            TimerEvent::Ended(TimerCycle::new("a", 21)),
            TimerEvent::Stopped,
        ]
    );
}

// Own tests

#[test]
fn timer_loop_from_count() {
    assert_eq!(TimerLoop::from(0), TimerLoop::Infinite);
    assert_eq!(TimerLoop::from(4), TimerLoop::Fixed(4));
    assert_eq!(TimerLoop::default(), TimerLoop::Infinite);
}

#[test]
fn timer_cycle_from_pair() {
    let cycle: TimerCycle = ("Work", 2).into();
    assert_eq!(cycle, TimerCycle::new("Work", 2));
    assert_eq!(cycle.name, "Work");
    assert_eq!(cycle.duration, 2);
}

#[test]
fn cycles_deref_to_vec() {
    let cycles = TimerCycles::from(vec![TimerCycle::new("x", 1), TimerCycle::new("y", 2)]);
    assert_eq!(cycles.len(), 2);
    assert_eq!(cycles[1], TimerCycle::new("y", 2));
    assert_eq!(cycles.clone(), cycles);
}

#[test]
fn first_cycle_missing_is_not_found() {
    let config = TimerConfig::default();
    let err = config.clone_first_cycle().unwrap_err();
    assert_eq!(err.kind(), std::io::ErrorKind::NotFound);
    assert_eq!(err.to_string(), "cannot find first cycle from timer config");
}

#[test]
fn new_timer_is_stopped_on_first_cycle() {
    let config = TimerConfig {
        cycles: TimerCycles::from(vec![TimerCycle::new("Work", 2), TimerCycle::new("Rest", 3)]),
        cycles_count: TimerLoop::Fixed(2),
    };
    let timer = Timer::new(config);
    assert_eq!(timer.state, TimerState::Stopped);
    assert_eq!(timer.cycle, TimerCycle::new("Work", 2));
    assert_eq!(timer.cycles_count, TimerLoop::Fixed(2));
    assert_eq!(timer.started_at, None);
    assert_eq!(timer.elapsed, 0);
    assert_eq!(timer.elapsed(), 0);
}

#[test]
fn fixed_loops_stop_the_timer() {
    let mut timer = testing_timer();
    timer.cycles_count = TimerLoop::Fixed(2);
    // two loops of 6 seconds: still running at 11 seconds
    let events = timer.update_with_elapsed(11);
    assert_eq!(timer.state, TimerState::Running);
    assert_eq!(timer.cycle, TimerCycle::new("c", 1));
    assert_eq!(
        events,
        vec![
            TimerEvent::Running(TimerCycle::new("a", 3)),
            TimerEvent::Ended(TimerCycle::new("a", 0)),
            TimerEvent::Began(TimerCycle::new("c", 1)),
        ]
    );
    // stopped by itself at 12 seconds, with no event
    let events = timer.update_with_elapsed(12);
    assert_eq!(timer.state, TimerState::Stopped);
    assert_eq!(timer.cycle, TimerCycle::new("c", 1));
    assert!(events.is_empty());
}

#[test]
fn fixed_loops_of_empty_config_stop_at_once() {
    let mut timer = Timer::default();
    timer.state = TimerState::Running;
    timer.cycles_count = TimerLoop::Fixed(3);
    let events = timer.update_with_elapsed(0);
    assert_eq!(timer.state, TimerState::Stopped);
    assert!(events.is_empty());
}

#[test]
fn update_is_periodic() {
    let mut a = testing_timer();
    let mut b = testing_timer();
    let events_a = a.update_with_elapsed(4);
    let events_b = b.update_with_elapsed(4 + 6 * 7);
    assert_eq!(a.cycle, TimerCycle::new("b", 1));
    assert_eq!(a.cycle, b.cycle);
    assert_eq!(events_a, events_b);
}

#[test]
fn pause_keeps_elapsed_and_resume_restarts_clock() {
    let mut timer = testing_timer();
    timer.elapsed = 5;
    timer.started_at = None;
    assert_eq!(timer.pause(), Some(TimerEvent::Paused(TimerCycle::new("a", 3))));
    assert_eq!(timer.state, TimerState::Paused);
    assert_eq!(timer.elapsed, 5);
    assert_eq!(timer.started_at, None);
    // pausing again does nothing
    assert_eq!(timer.pause(), None);
    assert_eq!(timer.resume(), Some(TimerEvent::Resumed(TimerCycle::new("a", 3))));
    assert_eq!(timer.state, TimerState::Running);
    assert!(timer.started_at.is_some());
    assert!(timer.elapsed() >= 5);
    // resuming a running timer does nothing
    assert_eq!(timer.resume(), None);
}

#[test]
fn start_and_stop_have_no_effect_out_of_their_state() {
    let mut timer = testing_timer();
    assert!(timer.start().is_empty());
    assert_eq!(timer.state, TimerState::Running);
    timer.state = TimerState::Paused;
    assert!(timer.stop().is_empty());
    assert_eq!(timer.state, TimerState::Paused);
}

#[test]
fn start_then_stop_gives_back_a_new_timer() {
    let config = testing_timer().config;
    let mut timer = Timer::new(config.clone());
    let mut events = timer.start();
    timer.update_with_elapsed(4);
    events.extend(timer.stop());
    let fresh = Timer::new(config);
    assert_eq!(timer.state, fresh.state);
    assert_eq!(timer.cycle, fresh.cycle);
    assert_eq!(timer.cycles_count, fresh.cycles_count);
    assert_eq!(timer.started_at, None);
    assert_eq!(timer.elapsed, 0);
    assert_eq!(
        events,
        vec![
            TimerEvent::Started,
            TimerEvent::Began(TimerCycle::new("a", 3)),
            TimerEvent::Ended(TimerCycle::new("b", 1)),
            TimerEvent::Stopped,
        ]
    );
}

#[test]
fn set_twice_keeps_last() {
    let mut timer = testing_timer();
    timer.set(10);
    timer.set(7);
    assert_eq!(timer.cycle, TimerCycle::new("a", 7));
}

#[test]
fn cycles_deref_mut_edits_the_list() {
    let mut cycles = TimerCycles::default();
    cycles.push(TimerCycle::new("x", 1));
    cycles[0].duration = 4;
    assert_eq!(cycles.len(), 1);
    assert_eq!(cycles[0], TimerCycle::new("x", 4));
}

#[test]
fn infinite_timer_never_stops() {
    let mut timer = testing_timer();
    for secs in [0, 5, 6, 600, 6001] {
        timer.update_with_elapsed(secs);
        assert_eq!(timer.state, TimerState::Running);
    }
    assert_eq!(timer.cycle, TimerCycle::new("a", 2));
}

#[test]
fn elapsed_after_adds_seconds_since_start() {
    let mut timer = testing_timer();
    timer.elapsed = 5;
    assert_eq!(timer.elapsed_after(7), 12);
    assert_eq!(timer.elapsed_after(u64::MAX), usize::MAX);
    timer.started_at = None;
    assert_eq!(timer.elapsed_after(7), 5);
}

#[test]
fn pause_at_keeps_given_seconds() {
    let mut timer = testing_timer();
    assert_eq!(timer.pause_at(9), Some(TimerEvent::Paused(TimerCycle::new("a", 3))));
    assert_eq!(timer.state, TimerState::Paused);
    assert_eq!(timer.elapsed, 9);
    assert_eq!(timer.started_at, None);
    assert_eq!(timer.pause_at(20), None);
    assert_eq!(timer.elapsed, 9);
}

#[test]
fn timers_without_start_compare_by_state_cycle_and_seconds() {
    let mut a = testing_timer();
    a.started_at = None;
    let mut b = a.clone();
    assert_eq!(a, b);
    b.elapsed = 1;
    assert_ne!(a, b);
    b.elapsed = 0;
    b.config = TimerConfig::default();
    assert_eq!(a, b);
    b.cycle.duration = 2;
    assert_ne!(a, b);
}

#[test]
fn stop_after_operations_gives_new_timer() {
    let config = testing_timer().config;
    let mut timer = Timer::new(config.clone());
    timer.start();
    timer.set(10);
    timer.update_with_elapsed(4);
    timer.pause_at(4);
    timer.resume();
    timer.update_with_elapsed(5);
    assert_eq!(timer.state, TimerState::Running);
    timer.stop();
    let fresh = Timer::new(config);
    assert_eq!(timer.state, fresh.state);
    assert_eq!(timer.cycle, fresh.cycle);
    assert_eq!(timer.cycles_count, fresh.cycles_count);
    assert_eq!(timer.started_at, fresh.started_at);
    assert_eq!(timer.elapsed, fresh.elapsed);
}

#[test]
fn paused_timer_frozen_through_updates() {
    let mut timer = testing_timer();
    timer.update_with_elapsed(4);
    timer.pause_at(4);
    let cycle = timer.cycle.clone();
    for secs in [5, 9, 100] {
        assert!(timer.update_with_elapsed(secs).is_empty());
        timer.update();
        assert_eq!(timer.state, TimerState::Paused);
        assert_eq!(timer.cycle, cycle);
        assert_eq!(timer.elapsed(), 4);
        assert_eq!(timer.elapsed_after(secs as u64), 4);
    }
}

#[test]
fn elapsed_grows_with_clock() {
    let mut timer = testing_timer();
    timer.elapsed = 3;
    let mut last = 0;
    for secs in [0u64, 1, 5, 5, 60] {
        let now = timer.elapsed_after(secs);
        assert!(now >= last);
        last = now;
    }
    assert_eq!(last, 63);
}
