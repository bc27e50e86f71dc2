use focus_timer::clock::{break_duration, Phase, SessionClock, SessionState, TickOutcome};
use focus_timer::config::{Activity, Configuration};

fn started(work_minutes: u32, session_count: u32) -> SessionClock {
    let mut clock = SessionClock::new(Configuration::new(
        Activity::Coding,
        work_minutes,
        session_count,
    ));
    clock.start();
    clock
}

fn tick_times(clock: &mut SessionClock, n: u32) -> TickOutcome {
    let mut last = TickOutcome::Skipped;
    for _ in 0..n {
        last = clock.tick();
    }
    last
}

#[test]
fn break_duration_is_ten_minutes_from_forty_on() {
    for m in 1..=60u32 {
        let expected = if m >= 40 { 600 } else { 300 };
        assert_eq!(break_duration(m), expected, "work_minutes = {}", m);
    }
    assert_eq!(break_duration(39), 300);
    assert_eq!(break_duration(40), 600);
    assert_eq!(break_duration(0), 300);
    assert_eq!(break_duration(u32::MAX), 600);
}

#[test]
fn new_clock_is_idle_and_paused() {
    let clock = SessionClock::new(Configuration::new(Activity::Studying, 25, 4));
    assert_eq!(
        clock.state(),
        SessionState { phase: Phase::Idle, session_index: 1, remaining_seconds: 1500, paused: true }
    );
    assert_eq!(clock.config(), Configuration::new(Activity::Studying, 25, 4));
}

#[test]
fn start_puts_a_whole_work_session_on_the_clock() {
    let clock = started(25, 4);
    assert_eq!(
        clock.state(),
        SessionState {
            phase: Phase::Working,
            session_index: 1,
            remaining_seconds: 1500,
            paused: false
        }
    );
    let short = started(1, 1);
    assert_eq!(short.state().remaining_seconds, 60);
    let long = started(60, 12);
    assert_eq!(long.state().remaining_seconds, 3600);
}

#[test]
fn tick_is_a_noop_when_idle() {
    let mut clock = SessionClock::new(Configuration::new(Activity::Studying, 25, 4));
    let before = clock;
    assert_eq!(clock.tick(), TickOutcome::Skipped);
    assert_eq!(clock, before);
    clock.toggle_pause();
    let unpaused_idle = clock;
    assert_eq!(clock.tick(), TickOutcome::Skipped);
    assert_eq!(clock, unpaused_idle);
}

#[test]
fn tick_is_a_noop_when_paused() {
    let mut clock = started(25, 4);
    clock.tick();
    clock.toggle_pause();
    let before = clock;
    for _ in 0..10 {
        assert_eq!(clock.tick(), TickOutcome::Skipped);
    }
    assert_eq!(clock, before);
    assert_eq!(clock.state().remaining_seconds, 1499);
}

#[test]
fn tick_takes_exactly_one_second() {
    let mut clock = started(25, 4);
    for expected in (1..1500u32).rev() {
        assert_eq!(clock.tick(), TickOutcome::Counted);
        assert_eq!(
            clock.state(),
            SessionState {
                phase: Phase::Working,
                session_index: 1,
                remaining_seconds: expected,
                paused: false
            }
        );
    }
}

#[test]
fn single_session_goes_idle_without_a_break() {
    let mut clock = started(25, 1);
    for _ in 0..1499 {
        assert_eq!(clock.tick(), TickOutcome::Counted);
        assert_eq!(clock.state().phase, Phase::Working);
    }
    assert_eq!(clock.tick(), TickOutcome::Completed);
    assert_eq!(
        clock.state(),
        SessionState { phase: Phase::Idle, session_index: 1, remaining_seconds: 0, paused: true }
    );
}

#[test]
fn two_sessions_run_work_break_work_idle() {
    let mut clock = started(25, 2);
    assert_eq!(tick_times(&mut clock, 1500), TickOutcome::BreakStarted);
    assert_eq!(
        clock.state(),
        SessionState { phase: Phase::Break, session_index: 1, remaining_seconds: 300, paused: true }
    );
    // Every change of phase pauses the clock: nothing moves until it is resumed.
    assert_eq!(tick_times(&mut clock, 5), TickOutcome::Skipped);
    assert_eq!(clock.state().remaining_seconds, 300);
    clock.toggle_pause();
    assert_eq!(tick_times(&mut clock, 300), TickOutcome::WorkStarted);
    assert_eq!(
        clock.state(),
        SessionState {
            phase: Phase::Working,
            session_index: 2,
            remaining_seconds: 1500,
            paused: true
        }
    );
    clock.toggle_pause();
    assert_eq!(tick_times(&mut clock, 1500), TickOutcome::Completed);
    assert_eq!(
        clock.state(),
        SessionState { phase: Phase::Idle, session_index: 2, remaining_seconds: 0, paused: true }
    );
}

#[test]
fn long_sessions_earn_the_long_break() {
    let mut clock = started(40, 2);
    assert_eq!(tick_times(&mut clock, 2400), TickOutcome::BreakStarted);
    assert_eq!(clock.state().remaining_seconds, 600);
    let mut shorter = started(39, 2);
    assert_eq!(tick_times(&mut shorter, 2340), TickOutcome::BreakStarted);
    assert_eq!(shorter.state().remaining_seconds, 300);
}

#[test]
fn toggle_pause_twice_restores_the_clock() {
    let mut clock = started(25, 4);
    let before = clock;
    clock.toggle_pause();
    assert!(clock.state().paused);
    assert_ne!(clock, before);
    clock.toggle_pause();
    assert_eq!(clock, before);

    let mut idle = SessionClock::new(Configuration::new(Activity::Reading, 10, 3));
    let idle_before = idle;
    idle.toggle_pause();
    assert!(!idle.state().paused);
    idle.toggle_pause();
    assert_eq!(idle, idle_before);
}

#[test]
fn stop_forces_idle_and_keeps_the_rest() {
    let mut clock = started(25, 4);
    tick_times(&mut clock, 10);
    clock.stop();
    assert_eq!(
        clock.state(),
        SessionState {
            phase: Phase::Idle,
            session_index: 1,
            remaining_seconds: 1490,
            paused: false
        }
    );
    assert_eq!(clock.tick(), TickOutcome::Skipped);
    assert_eq!(clock.state().remaining_seconds, 1490);
}

#[test]
fn configure_is_taken_only_when_idle() {
    let mut clock = SessionClock::new(Configuration::new(Activity::Studying, 25, 4));
    let other = Configuration::new(Activity::Reading, 50, 2);
    assert!(clock.configure(other));
    assert_eq!(clock.config(), other);
    assert_eq!(clock.state().session_index, 1);
    clock.start();
    assert_eq!(clock.state().remaining_seconds, 3000);
    let before = clock;
    assert!(!clock.configure(Configuration::new(Activity::Coding, 5, 5)));
    assert_eq!(clock, before);
}

#[test]
fn configure_keeps_the_session_index_within_the_count() {
    let mut clock = started(1, 3);
    tick_times(&mut clock, 60);
    clock.toggle_pause();
    tick_times(&mut clock, 300);
    clock.toggle_pause();
    tick_times(&mut clock, 60);
    clock.toggle_pause();
    tick_times(&mut clock, 300);
    assert_eq!(clock.state().session_index, 3);
    clock.stop();
    assert!(clock.configure(Configuration::new(Activity::Coding, 1, 2)));
    assert_eq!(clock.state().session_index, 2);
    assert!(clock.configure(Configuration::new(Activity::Coding, 1, 12)));
    assert_eq!(clock.state().session_index, 2);
}

#[test]
fn start_keeps_the_session_index() {
    let mut clock = started(1, 2);
    tick_times(&mut clock, 60);
    clock.toggle_pause();
    tick_times(&mut clock, 300);
    assert_eq!(clock.state().session_index, 2);
    clock.stop();
    clock.start();
    assert_eq!(
        clock.state(),
        SessionState { phase: Phase::Working, session_index: 2, remaining_seconds: 60, paused: false }
    );
    assert_eq!(tick_times(&mut clock, 60), TickOutcome::Completed);
}
