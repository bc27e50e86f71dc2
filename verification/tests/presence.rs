use focus_timer::clock::{Phase, SessionState};
use focus_timer::config::{Activity, Configuration};
use focus_timer::presence::{sample, PresencePayload};
use focus_timer::text::decimal_text;

fn state(phase: Phase, session_index: u32, remaining_seconds: u32, paused: bool) -> SessionState {
    SessionState { phase, session_index, remaining_seconds, paused }
}

#[test]
fn decimal_text_of_numbers() {
    assert_eq!(decimal_text(0), "0");
    assert_eq!(decimal_text(7), "7");
    assert_eq!(decimal_text(9), "9");
    assert_eq!(decimal_text(10), "10");
    assert_eq!(decimal_text(12), "12");
    assert_eq!(decimal_text(100), "100");
    assert_eq!(decimal_text(1234567890), "1234567890");
    assert_eq!(decimal_text(u32::MAX), "4294967295");
    for n in 0..2000u32 {
        assert_eq!(decimal_text(n), n.to_string());
    }
}

#[test]
fn idle_session_is_configuring() {
    let cfg = Configuration::new(Activity::Coding, 25, 4);
    for paused in [true, false] {
        assert_eq!(
            sample(&cfg, &state(Phase::Idle, 1, 1500, paused), 1_700_000_000),
            PresencePayload {
                status_text: "Configuring...".to_string(),
                detail_text: "Main Menu".to_string(),
                end_epoch: None
            }
        );
    }
}

#[test]
fn working_session_is_focusing_until_the_end_of_the_phase() {
    let cfg = Configuration::new(Activity::Coding, 25, 4);
    assert_eq!(
        sample(&cfg, &state(Phase::Working, 2, 900, false), 1_700_000_000),
        PresencePayload {
            status_text: "🔥 Focusing: Coding 💻".to_string(),
            detail_text: "Session 2 of 4".to_string(),
            end_epoch: Some(1_700_000_900)
        }
    );
}

#[test]
fn break_is_reported_without_the_activity() {
    let cfg = Configuration::new(Activity::Reading, 45, 12);
    assert_eq!(
        sample(&cfg, &state(Phase::Break, 11, 600, false), 100),
        PresencePayload {
            status_text: "☕ Taking a Break".to_string(),
            detail_text: "Session 11 of 12".to_string(),
            end_epoch: Some(700)
        }
    );
}

#[test]
fn paused_session_has_no_end() {
    let cfg = Configuration::new(Activity::DeepWork, 25, 4);
    assert_eq!(
        sample(&cfg, &state(Phase::Working, 1, 1500, true), 1_700_000_000),
        PresencePayload {
            status_text: "⏸️ Paused: Deep Work 🧠".to_string(),
            detail_text: "Session 1 of 4".to_string(),
            end_epoch: None
        }
    );
    assert_eq!(
        sample(&cfg, &state(Phase::Break, 1, 300, true), 1_700_000_000).status_text,
        "⏸️ Paused: Deep Work 🧠"
    );
}

#[test]
fn end_that_does_not_fit_is_left_out() {
    let cfg = Configuration::new(Activity::Studying, 25, 4);
    let running = state(Phase::Working, 1, 10, false);
    let last = i64::MAX as u64;
    assert_eq!(sample(&cfg, &running, last - 10).end_epoch, Some(i64::MAX));
    assert_eq!(sample(&cfg, &running, last - 9).end_epoch, None);
    assert_eq!(sample(&cfg, &running, u64::MAX).end_epoch, None);
    assert_eq!(sample(&cfg, &running, 0).end_epoch, Some(10));
}

#[test]
fn detail_shows_large_session_numbers_in_full() {
    let cfg = Configuration::new(Activity::Studying, 25, 4);
    assert_eq!(
        sample(&cfg, &state(Phase::Working, u32::MAX, 1, false), 0).detail_text,
        "Session 4294967295 of 4"
    );
}
