//! The focus session: the clock and the audio player driven together, so that
//! the player follows the clock's pause flag and holds no live resource while
//! the clock is idle.

use vstd::prelude::*;
use vstd::string::*;
use crate::audio::{request_view, AudioAction, AudioPlayer, AudioView, PlayRequest};
use crate::clock::{ClockView, Phase, SessionClock, SessionState, TickOutcome};
use crate::config::{Configuration, ConfigurationView};
use crate::library::{TrackId, TrackLibrary};
use crate::presence::{
    detail_text_spec,
    end_epoch_spec,
    sample,
    status_text_spec,
    PresencePayload,
};

verus! {

/// A message for the user at a change of phase.
#[derive(Debug, PartialEq, Eq)]
pub struct Notice {
    pub title: String,
    pub body: String,
}

/// The title of the notice that a tick's outcome calls for, if it calls for one.
pub open spec fn notice_title(outcome: TickOutcome) -> Option<Seq<char>> {
    match outcome {
        TickOutcome::Completed => Some("Done! 🎉"@),
        TickOutcome::BreakStarted => Some("Break! ☕"@),
        TickOutcome::WorkStarted => Some("Work! 🔥"@),
        _ => None,
    }
}

/// The body of the notice that a tick's outcome calls for, if it calls for one.
pub open spec fn notice_body(outcome: TickOutcome) -> Option<Seq<char>> {
    match outcome {
        TickOutcome::Completed => Some("All sessions finished!"@),
        TickOutcome::BreakStarted => Some("Time to rest."@),
        TickOutcome::WorkStarted => Some("Focus time."@),
        _ => None,
    }
}

/// The notice for a tick's outcome: one for each change of phase, none for a
/// tick that changed no phase.
pub fn notice_for(outcome: TickOutcome) -> (notice: Option<Notice>)
    ensures
        match notice {
            Some(n) => notice_title(outcome) == Some(n.title@) && notice_body(outcome) == Some(
                n.body@,
            ),
            None => notice_title(outcome).is_none() && notice_body(outcome).is_none(),
        },
{
    match outcome {
        TickOutcome::Completed => Some(
            Notice {
                title: String::from_str("Done! 🎉"),
                body: String::from_str("All sessions finished!"),
            },
        ),
        TickOutcome::BreakStarted => Some(
            Notice { title: String::from_str("Break! ☕"), body: String::from_str("Time to rest.") },
        ),
        TickOutcome::WorkStarted => Some(
            Notice { title: String::from_str("Work! 🔥"), body: String::from_str("Focus time.") },
        ),
        _ => None,
    }
}

/// What a tick of the session did and what is to be done about it.
#[derive(Debug, PartialEq, Eq)]
pub struct TickReport {
    /// What the tick did to the clock.
    pub outcome: TickOutcome,
    /// The message to show the user, if notifications are on and the phase changed.
    pub notice: Option<Notice>,
    /// What to do to the live playback resource.
    pub audio: AudioAction,
}

/// The mathematical content of a [`FocusSession`].
pub struct SessionView {
    pub clock: ClockView,
    pub audio: AudioView,
    pub notifications_enabled: bool,
}

impl SessionView {
    /// Clock and player are well-formed, the player has the clock's pause
    /// flag, and nothing plays while the clock is idle.
    pub open spec fn wf(self) -> bool {
        &&& self.clock.wf()
        &&& self.audio.wf()
        &&& self.audio.paused == self.clock.paused
        &&& self.clock.phase == Phase::Idle ==> !self.audio.playing
    }

    /// A session that has not begun: a fresh clock, a silent player that has
    /// the clock's pause flag, notifications on.
    pub open spec fn initial(config: ConfigurationView) -> SessionView {
        SessionView {
            clock: ClockView::fresh(config),
            audio: AudioView::initial().pause_set(true),
            notifications_enabled: true,
        }
    }

    /// What the player has to do about a tick's outcome: release at the end
    /// of the run, pause at any other change of phase, nothing otherwise.
    pub open spec fn audio_after_tick(self) -> AudioView {
        match self.clock.tick_outcome() {
            TickOutcome::Completed => self.audio.stopped().pause_set(true),
            TickOutcome::BreakStarted | TickOutcome::WorkStarted => self.audio.pause_set(true),
            _ => self.audio,
        }
    }

    /// What is to be done to the live resource about a tick's outcome.
    pub open spec fn action_after_tick(self) -> AudioAction {
        match self.clock.tick_outcome() {
            TickOutcome::Completed => AudioAction::Release,
            TickOutcome::BreakStarted | TickOutcome::WorkStarted => if self.audio.playing {
                AudioAction::Pause
            } else {
                AudioAction::Nothing
            },
            _ => AudioAction::Nothing,
        }
    }

    /// The state after `on_tick()`.
    pub open spec fn ticked(self) -> SessionView {
        SessionView { clock: self.clock.ticked(), audio: self.audio_after_tick(), ..self }
    }

    /// The state after `toggle_pause()`.
    pub open spec fn toggled(self) -> SessionView {
        SessionView {
            clock: self.clock.toggled(),
            audio: self.audio.pause_set(!self.clock.paused),
            ..self
        }
    }

    /// The state after `begin(track, library)`.
    pub open spec fn begun(self, entries: Seq<Seq<char>>, track: nat) -> SessionView {
        SessionView {
            clock: self.clock.started(),
            audio: self.audio.play_requested(entries, track, false),
            ..self
        }
    }

    /// The state after `audio_opened(success)`: an idle session takes no
    /// track; a session that is timing a phase plays what was opened.
    pub open spec fn open_reported(self, success: bool) -> SessionView {
        SessionView {
            audio: self.audio.open_reported(success && self.clock.phase != Phase::Idle),
            ..self
        }
    }

    /// The state after `configure(config)`.
    pub open spec fn configured(self, config: ConfigurationView) -> SessionView {
        SessionView { clock: self.clock.configured(config), ..self }
    }

    /// The state after `adjust_volume(delta)`.
    pub open spec fn volume_adjusted(self, delta: int) -> SessionView {
        SessionView { audio: self.audio.volume_set(self.audio.volume + delta), ..self }
    }

    /// What `adjust_volume(delta)` asks to be done to the live resource.
    pub open spec fn volume_action(self, delta: int) -> AudioAction {
        self.audio.volume_action(self.audio.volume + delta)
    }

    /// What `toggle_pause()` asks to be done to the live resource.
    pub open spec fn toggle_action(self) -> AudioAction {
        self.audio.pause_action(!self.clock.paused)
    }

    /// The state after `set_notifications(enabled)`.
    pub open spec fn notifications_set(self, enabled: bool) -> SessionView {
        SessionView { notifications_enabled: enabled, ..self }
    }

    /// What `audio_opened(success)` asks to be done with what was opened.
    pub open spec fn open_action(self, success: bool) -> AudioAction {
        if success && self.clock.phase == Phase::Idle {
            AudioAction::Release
        } else {
            AudioAction::Nothing
        }
    }

    /// The clock's state as a snapshot.
    pub open spec fn snapshot(self) -> SessionState {
        SessionState {
            phase: self.clock.phase,
            session_index: self.clock.session_index as u32,
            remaining_seconds: self.clock.remaining_seconds as u32,
            paused: self.clock.paused,
        }
    }

    /// The state after `quit()`.
    pub open spec fn quitted(self) -> SessionView {
        SessionView { clock: self.clock.stopped(), audio: self.audio.stopped(), ..self }
    }
}

/// The clock and the audio player of one run, and whether the user wants
/// to be notified of the changes of phase.
#[derive(Clone, Copy, Debug, PartialEq, Eq)]
pub struct FocusSession {
    clock: SessionClock,
    audio: AudioPlayer,
    notifications_enabled: bool,
}

impl View for FocusSession {
    type V = SessionView;

    closed spec fn view(&self) -> SessionView {
        SessionView {
            clock: self.clock@,
            audio: self.audio@,
            notifications_enabled: self.notifications_enabled,
        }
    }
}

impl FocusSession {
    /// Every value of this type has a well-formed view.
    #[verifier::type_invariant]
    pub open spec fn inv(self) -> bool {
        self@.wf()
    }

    /// A session that has not begun: a fresh clock for `config`, a silent
    /// player, notifications on.
    pub fn new(config: Configuration) -> (session: FocusSession)
        ensures
            session@ == SessionView::initial(config@),
            session@.wf(),
    {
        let clock: SessionClock = SessionClock::new(config);
        let mut audio: AudioPlayer = AudioPlayer::new();
        audio.set_paused(true);
        proof {
            use_type_invariant(&audio);
        }
        FocusSession { clock, audio, notifications_enabled: true }
    }

    /// Installs a configuration for the next run. Only a session whose clock
    /// is idle takes it; the result says whether it was taken.
    pub fn configure(&mut self, config: Configuration) -> (taken: bool)
        ensures
            final(self)@ == old(self)@.configured(config@),
            taken == (old(self)@.clock.phase == Phase::Idle),
            final(self)@.wf(),
    {
        proof {
            use_type_invariant(&*self);
        }
        let mut clock: SessionClock = self.clock;
        let taken: bool = clock.configure(config);
        self.clock = clock;
        taken
    }

    /// Begins the run: the clock starts a work session, running, and the
    /// player is asked for `track`. The result says what to open, if the
    /// track is one of the library; whatever was live is to be released first.
    pub fn begin(&mut self, track: TrackId, library: &TrackLibrary) -> (request: Option<PlayRequest>)
        ensures
            final(self)@ == old(self)@.begun(library@, track as nat),
            final(self)@.wf(),
            request_view(request) == old(self)@.audio.play_request(library@, track as nat, false),
    {
        proof {
            use_type_invariant(&*self);
        }
        let mut clock: SessionClock = self.clock;
        let mut audio: AudioPlayer = self.audio;
        clock.start();
        let request: Option<PlayRequest> = audio.play(track, library, false);
        proof {
            use_type_invariant(&audio);
        }
        *self = FocusSession { clock, audio, notifications_enabled: self.notifications_enabled };
        request
    }

    /// Records whether the requested track could be opened. The result says
    /// what to do with what was opened: release it if the session has gone
    /// idle in the meantime, else nothing.
    pub fn audio_opened(&mut self, success: bool) -> (action: AudioAction)
        ensures
            final(self)@ == old(self)@.open_reported(success),
            final(self)@.wf(),
            !success ==> !final(self)@.audio.playing,
            action == old(self)@.open_action(success),
    {
        proof {
            use_type_invariant(&*self);
        }
        let idle: bool = self.clock.state().phase == Phase::Idle;
        let mut audio: AudioPlayer = self.audio;
        audio.opened(success && !idle);
        proof {
            use_type_invariant(&audio);
        }
        self.audio = audio;
        if success && idle {
            AudioAction::Release
        } else {
            AudioAction::Nothing
        }
    }

    /// Pauses a running session and resumes a paused one, the player with
    /// the clock. The result says what to do to the live resource.
    pub fn toggle_pause(&mut self) -> (action: AudioAction)
        ensures
            final(self)@ == old(self)@.toggled(),
            final(self)@.wf(),
            action == old(self)@.toggle_action(),
    {
        proof {
            use_type_invariant(&*self);
        }
        let mut clock: SessionClock = self.clock;
        let mut audio: AudioPlayer = self.audio;
        clock.toggle_pause();
        let action: AudioAction = audio.set_paused(clock.state().paused);
        proof {
            use_type_invariant(&audio);
        }
        *self = FocusSession { clock, audio, notifications_enabled: self.notifications_enabled };
        action
    }

    /// Changes the volume by `delta` percent, clamped to 0..=100. The result
    /// says what to do to the live resource.
    pub fn adjust_volume(&mut self, delta: i32) -> (action: AudioAction)
        ensures
            final(self)@ == old(self)@.volume_adjusted(delta as int),
            final(self)@.wf(),
            action == old(self)@.volume_action(delta as int),
    {
        proof {
            use_type_invariant(&*self);
        }
        let mut audio: AudioPlayer = self.audio;
        let action: AudioAction = audio.adjust_volume(delta);
        proof {
            use_type_invariant(&audio);
        }
        self.audio = audio;
        action
    }

    /// Counts one elapsed second. The clock ticks; at a change of phase the
    /// player is paused with the clock, at the end of the run it is stopped,
    /// and, if notifications are on, the report carries the notice to show.
    pub fn on_tick(&mut self) -> (report: TickReport)
        ensures
            final(self)@ == old(self)@.ticked(),
            final(self)@.wf(),
            report.outcome == old(self)@.clock.tick_outcome(),
            report.audio == old(self)@.action_after_tick(),
            match report.notice {
                Some(n) => old(self)@.notifications_enabled && notice_title(report.outcome) == Some(
                    n.title@,
                ) && notice_body(report.outcome) == Some(n.body@),
                None => !old(self)@.notifications_enabled || notice_title(report.outcome).is_none(),
            },
    {
        proof {
            use_type_invariant(&*self);
        }
        let mut clock: SessionClock = self.clock;
        let mut audio: AudioPlayer = self.audio;
        let outcome: TickOutcome = clock.tick();
        let action: AudioAction = match outcome {
            TickOutcome::Completed => {
                let release: AudioAction = audio.stop();
                audio.set_paused(true);
                release
            },
            TickOutcome::BreakStarted | TickOutcome::WorkStarted => audio.set_paused(true),
            _ => AudioAction::Nothing,
        };
        let notice: Option<Notice> = if self.notifications_enabled {
            notice_for(outcome)
        } else {
            None
        };
        proof {
            use_type_invariant(&audio);
        }
        *self = FocusSession { clock, audio, notifications_enabled: self.notifications_enabled };
        TickReport { outcome, notice, audio: action }
    }

    /// Abandons the run: the clock goes idle and the player stops. The live
    /// resource is to be released.
    pub fn quit(&mut self) -> (action: AudioAction)
        ensures
            final(self)@ == old(self)@.quitted(),
            final(self)@.wf(),
            action == AudioAction::Release,
    {
        proof {
            use_type_invariant(&*self);
        }
        let mut clock: SessionClock = self.clock;
        let mut audio: AudioPlayer = self.audio;
        clock.stop();
        let action: AudioAction = audio.stop();
        proof {
            use_type_invariant(&audio);
        }
        *self = FocusSession { clock, audio, notifications_enabled: self.notifications_enabled };
        action
    }

    /// Turns the notices on or off.
    pub fn set_notifications(&mut self, enabled: bool)
        ensures
            final(self)@ == old(self)@.notifications_set(enabled),
    {
        proof {
            use_type_invariant(&*self);
        }
        self.notifications_enabled = enabled;
    }

    /// Whether the notices are on.
    pub fn notifications_enabled(&self) -> (enabled: bool)
        ensures
            enabled == self@.notifications_enabled,
    {
        self.notifications_enabled
    }

    /// What to tell the outside world about the session at the time `now`,
    /// in seconds since the epoch.
    pub fn presence(&self, now: u64) -> (payload: PresencePayload)
        ensures
            payload.status_text@ == status_text_spec(self@.clock.config, self@.snapshot()),
            payload.detail_text@ == detail_text_spec(self@.clock.config, self@.snapshot()),
            payload.end_epoch == end_epoch_spec(self@.snapshot(), now),
    {
        let config: Configuration = self.clock.config();
        let state: SessionState = self.clock.state();
        sample(&config, &state, now)
    }

    /// The clock as it stands.
    pub fn clock(&self) -> (clock: SessionClock)
        ensures
            clock@ == self@.clock,
    {
        self.clock
    }

    /// The audio player as it stands.
    pub fn audio(&self) -> (audio: AudioPlayer)
        ensures
            audio@ == self@.audio,
    {
        self.audio
    }
}

/// Every operation of the session leads from a well-formed state to a
/// well-formed state: the player keeps the clock's pause flag, and nothing
/// plays while the clock is idle.
pub proof fn lemma_session_stays_wf(
    s: SessionView,
    config: ConfigurationView,
    entries: Seq<Seq<char>>,
    track: nat,
    success: bool,
    delta: int,
    enabled: bool,
)
    requires
        s.wf(),
        config.wf(),
    ensures
        s.configured(config).wf(),
        s.begun(entries, track).wf(),
        s.open_reported(success).wf(),
        s.toggled().wf(),
        s.volume_adjusted(delta).wf(),
        s.ticked().wf(),
        s.quitted().wf(),
        s.notifications_set(enabled).wf(),
{
}

/// Pausing twice leaves the session as it was.
pub proof fn lemma_session_toggle_is_involutive(s: SessionView)
    requires
        s.wf(),
    ensures
        s.toggled().toggled() == s,
{
}

/// A live resource is asked to be released when the run ends, whether by
/// its last tick or by the user.
pub proof fn lemma_end_of_run_releases(s: SessionView)
    ensures
        s.clock.tick_outcome() == TickOutcome::Completed ==> s.action_after_tick()
            == AudioAction::Release && !s.ticked().audio.playing,
        !s.quitted().audio.playing,
{
}

} // verus!
