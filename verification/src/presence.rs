//! The presence sampler: what the outside world is told about the session,
//! derived from the configuration and the clock's state alone.

use vstd::prelude::*;
use vstd::string::*;
use crate::clock::{Phase, SessionState};
use crate::config::{activity_label, Configuration, ConfigurationView};
use crate::text::{decimal, decimal_text};

verus! {

/// What is reported: a status line, a detail line and, while the clock runs,
/// the time at which the current phase will end, in seconds since the epoch.
#[derive(Debug, PartialEq, Eq)]
pub struct PresencePayload {
    pub status_text: String,
    pub detail_text: String,
    pub end_epoch: Option<i64>,
}

/// The status line: setting up while idle; else paused, on a break, or
/// focusing, with the activity where it matters.
pub open spec fn status_text_spec(config: ConfigurationView, state: SessionState) -> Seq<char> {
    if state.phase == Phase::Idle {
        "Configuring..."@
    } else if state.paused {
        "⏸️ Paused: "@ + activity_label(config.activity)
    } else if state.phase == Phase::Break {
        "☕ Taking a Break"@
    } else {
        "🔥 Focusing: "@ + activity_label(config.activity)
    }
}

/// The detail line: the session's number and the number of sessions, or the
/// menu while idle.
pub open spec fn detail_text_spec(config: ConfigurationView, state: SessionState) -> Seq<char> {
    if state.phase == Phase::Idle {
        "Main Menu"@
    } else {
        "Session "@ + decimal(state.session_index as nat) + " of "@ + decimal(config.session_count)
    }
}

/// The end of the current phase: now plus what is left, known only while a
/// phase is timed and the clock is not paused, and only if it can be written
/// as a signed 64-bit number of seconds.
pub open spec fn end_epoch_spec(state: SessionState, now: u64) -> Option<i64> {
    if state.phase != Phase::Idle && !state.paused && now + state.remaining_seconds <= i64::MAX {
        Some((now + state.remaining_seconds) as i64)
    } else {
        None
    }
}

/// Samples the session at the time `now`, in seconds since the epoch.
pub fn sample(config: &Configuration, state: &SessionState, now: u64) -> (payload: PresencePayload)
    ensures
        payload.status_text@ == status_text_spec(config@, *state),
        payload.detail_text@ == detail_text_spec(config@, *state),
        payload.end_epoch == end_epoch_spec(*state, now),
{
    if state.phase == Phase::Idle {
        return PresencePayload {
            status_text: String::from_str("Configuring..."),
            detail_text: String::from_str("Main Menu"),
            end_epoch: None,
        };
    }
    let status_text: String = if state.paused {
        String::from_str("⏸️ Paused: ").concat(config.activity().label())
    } else if state.phase == Phase::Break {
        String::from_str("☕ Taking a Break")
    } else {
        String::from_str("🔥 Focusing: ").concat(config.activity().label())
    };
    let mut detail_text: String = String::from_str("Session ");
    detail_text.append(decimal_text(state.session_index).as_str());
    detail_text.append(" of ");
    detail_text.append(decimal_text(config.session_count()).as_str());
    let end_epoch: Option<i64> = if state.paused {
        None
    } else {
        let remaining: u64 = state.remaining_seconds as u64;
        if now <= (i64::MAX as u64) - remaining {
            Some((now + remaining) as i64)
        } else {
            None
        }
    };
    PresencePayload { status_text, detail_text, end_epoch }
}

} // verus!
