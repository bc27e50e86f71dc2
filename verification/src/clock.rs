//! The session clock: a phase state machine that counts one second per tick,
//! moves between work and break at zero, and pauses itself at every change
//! of phase.

use vstd::prelude::*;
use crate::config::{Configuration, ConfigurationView};

verus! {

/// Seconds in a minute.
pub const SECONDS_PER_MINUTE: u32 = 60;

/// Length of a break after a short work session, in seconds.
pub const SHORT_BREAK_SECONDS: u32 = 300;

/// Length of a break after a long work session, in seconds.
pub const LONG_BREAK_SECONDS: u32 = 600;

/// Work sessions of at least this many minutes earn the long break.
pub const LONG_BREAK_THRESHOLD_MINUTES: u32 = 40;

/// What the clock is currently timing.
#[derive(Clone, Copy, Debug, PartialEq, Eq, Structural)]
pub enum Phase {
    Working,
    Break,
    Idle,
}

/// What one tick did to the clock.
#[derive(Clone, Copy, Debug, PartialEq, Eq, Structural)]
pub enum TickOutcome {
    /// The clock was idle or paused, or had nothing left: nothing changed.
    Skipped,
    /// One second was counted and the phase goes on.
    Counted,
    /// A work session ended and a break began.
    BreakStarted,
    /// A break ended and the next work session began.
    WorkStarted,
    /// The last work session ended: the run is complete.
    Completed,
}

/// Seconds in a work session of `work_minutes` minutes.
pub open spec fn work_duration(work_minutes: nat) -> nat {
    work_minutes * SECONDS_PER_MINUTE as nat
}

/// Seconds in the break that follows a work session of `work_minutes` minutes.
pub open spec fn break_duration_spec(work_minutes: nat) -> nat {
    if work_minutes >= LONG_BREAK_THRESHOLD_MINUTES {
        LONG_BREAK_SECONDS as nat
    } else {
        SHORT_BREAK_SECONDS as nat
    }
}

/// Seconds a phase lasts from beginning to end; an idle clock times nothing.
pub open spec fn phase_duration(phase: Phase, work_minutes: nat) -> nat {
    match phase {
        Phase::Working => work_duration(work_minutes),
        Phase::Break => break_duration_spec(work_minutes),
        Phase::Idle => 0,
    }
}

/// The mathematical content of a [`SessionClock`].
pub struct ClockView {
    pub config: ConfigurationView,
    pub phase: Phase,
    pub session_index: nat,
    pub remaining_seconds: nat,
    pub paused: bool,
}

impl ClockView {
    /// The states a clock can be in: a valid configuration, a session index
    /// within the run, and, while a phase is being timed, between one second
    /// and the whole phase left. A break only occurs before the last session.
    pub open spec fn wf(self) -> bool {
        &&& self.config.wf()
        &&& 1 <= self.session_index <= self.config.session_count
        &&& self.phase != Phase::Idle ==> 1 <= self.remaining_seconds <= phase_duration(
            self.phase,
            self.config.work_minutes,
        )
        &&& self.phase == Phase::Break ==> self.session_index < self.config.session_count
    }

    /// Whether a tick counts a second in this state.
    pub open spec fn running(self) -> bool {
        self.phase != Phase::Idle && !self.paused && self.remaining_seconds > 0
    }

    /// A clock that has never run: idle, paused, at the first session, showing
    /// a whole work session.
    pub open spec fn fresh(config: ConfigurationView) -> ClockView {
        ClockView {
            config,
            phase: Phase::Idle,
            session_index: 1,
            remaining_seconds: work_duration(config.work_minutes),
            paused: true,
        }
    }

    /// The state after `configure(config)`: an idle clock takes the new
    /// configuration and keeps its session index within the new count; a
    /// clock that is timing a phase is left alone.
    pub open spec fn configured(self, config: ConfigurationView) -> ClockView {
        if self.phase == Phase::Idle {
            ClockView {
                config,
                session_index: if self.session_index > config.session_count {
                    config.session_count
                } else {
                    self.session_index
                },
                ..self
            }
        } else {
            self
        }
    }

    /// The state after `start()`.
    pub open spec fn started(self) -> ClockView {
        ClockView {
            phase: Phase::Working,
            remaining_seconds: work_duration(self.config.work_minutes),
            paused: false,
            ..self
        }
    }

    /// The state that follows when the current phase has just run out.
    pub open spec fn transitioned(self) -> ClockView {
        match self.phase {
            Phase::Working => if self.session_index >= self.config.session_count {
                ClockView { phase: Phase::Idle, remaining_seconds: 0, paused: true, ..self }
            } else {
                ClockView {
                    phase: Phase::Break,
                    remaining_seconds: break_duration_spec(self.config.work_minutes),
                    paused: true,
                    ..self
                }
            },
            Phase::Break => ClockView {
                phase: Phase::Working,
                session_index: self.session_index + 1,
                remaining_seconds: work_duration(self.config.work_minutes),
                paused: true,
                ..self
            },
            Phase::Idle => self,
        }
    }

    /// The state after `tick()`: unchanged unless running; else one second
    /// less, and at zero the transition.
    pub open spec fn ticked(self) -> ClockView {
        if !self.running() {
            self
        } else if self.remaining_seconds > 1 {
            ClockView { remaining_seconds: (self.remaining_seconds - 1) as nat, ..self }
        } else {
            self.transitioned()
        }
    }

    /// What `tick()` reports in this state.
    pub open spec fn tick_outcome(self) -> TickOutcome {
        if !self.running() {
            TickOutcome::Skipped
        } else if self.remaining_seconds > 1 {
            TickOutcome::Counted
        } else {
            match self.phase {
                Phase::Working => if self.session_index >= self.config.session_count {
                    TickOutcome::Completed
                } else {
                    TickOutcome::BreakStarted
                },
                Phase::Break => TickOutcome::WorkStarted,
                Phase::Idle => TickOutcome::Skipped,
            }
        }
    }

    /// The state after `toggle_pause()`.
    pub open spec fn toggled(self) -> ClockView {
        ClockView { paused: !self.paused, ..self }
    }

    /// The state after `stop()`.
    pub open spec fn stopped(self) -> ClockView {
        ClockView { phase: Phase::Idle, ..self }
    }

    /// The state after `n` ticks in a row.
    pub open spec fn ticked_times(self, n: nat) -> ClockView
        decreases n,
    {
        if n == 0 {
            self
        } else {
            self.ticked().ticked_times((n - 1) as nat)
        }
    }
}

/// Seconds in the break that follows a work session of `work_minutes`
/// minutes: ten minutes after a session of forty minutes or more, five
/// minutes otherwise.
pub fn break_duration(work_minutes: u32) -> (seconds: u32)
    ensures
        seconds == break_duration_spec(work_minutes as nat),
        work_minutes >= 40 ==> seconds == 600,
        work_minutes < 40 ==> seconds == 300,
{
    if work_minutes >= LONG_BREAK_THRESHOLD_MINUTES {
        LONG_BREAK_SECONDS
    } else {
        SHORT_BREAK_SECONDS
    }
}

/// A snapshot of the clock's state, for display and for the presence sampler.
#[derive(Clone, Copy, Debug, PartialEq, Eq)]
pub struct SessionState {
    pub phase: Phase,
    pub session_index: u32,
    pub remaining_seconds: u32,
    pub paused: bool,
}

/// The session clock. It owns the configuration of the run and the state of
/// the phase machine.
#[derive(Clone, Copy, Debug, PartialEq, Eq)]
pub struct SessionClock {
    config: Configuration,
    state: SessionState,
}

impl View for SessionClock {
    type V = ClockView;

    closed spec fn view(&self) -> ClockView {
        ClockView {
            config: self.config@,
            phase: self.state.phase,
            session_index: self.state.session_index as nat,
            remaining_seconds: self.state.remaining_seconds as nat,
            paused: self.state.paused,
        }
    }
}

impl SessionClock {
    /// Every value of this type has a well-formed view.
    #[verifier::type_invariant]
    pub open spec fn inv(self) -> bool {
        self@.wf()
    }

    /// A clock that has never run, for the given configuration.
    pub fn new(config: Configuration) -> (clock: SessionClock)
        ensures
            clock@ == ClockView::fresh(config@),
            clock@.wf(),
    {
        proof {
            use_type_invariant(&config);
        }
        let minutes: u32 = config.work_minutes();
        SessionClock {
            config,
            state: SessionState {
                phase: Phase::Idle,
                session_index: 1,
                remaining_seconds: minutes * SECONDS_PER_MINUTE,
                paused: true,
            },
        }
    }

    /// Installs a configuration for the next run. Only an idle clock takes
    /// it; the result says whether it was taken.
    pub fn configure(&mut self, config: Configuration) -> (taken: bool)
        ensures
            final(self)@ == old(self)@.configured(config@),
            taken == (old(self)@.phase == Phase::Idle),
            final(self)@.wf(),
    {
        proof {
            use_type_invariant(&*self);
        }
        if self.state.phase != Phase::Idle {
            return false;
        }
        proof {
            use_type_invariant(&config);
        }
        let count: u32 = config.session_count();
        let index: u32 = if self.state.session_index > count {
            count
        } else {
            self.state.session_index
        };
        *self = SessionClock { config, state: SessionState { session_index: index, ..self.state } };
        true
    }

    /// Begins a work session: a whole session on the clock, running.
    pub fn start(&mut self)
        ensures
            final(self)@ == old(self)@.started(),
            final(self)@.phase == Phase::Working,
            final(self)@.remaining_seconds == old(self)@.config.work_minutes * 60,
            !final(self)@.paused,
            final(self)@.wf(),
    {
        proof {
            use_type_invariant(&*self);
        }
        let minutes: u32 = self.config.work_minutes();
        self.state = SessionState {
            phase: Phase::Working,
            remaining_seconds: minutes * SECONDS_PER_MINUTE,
            paused: false,
            ..self.state
        };
    }

    /// Counts one elapsed second. Nothing happens while the clock is idle or
    /// paused. Otherwise one second leaves the clock, and when none is left
    /// the phase changes and the clock pauses itself: from the last work
    /// session to idle, from any other work session to a break, from a break
    /// to the next work session.
    pub fn tick(&mut self) -> (outcome: TickOutcome)
        ensures
            final(self)@ == old(self)@.ticked(),
            outcome == old(self)@.tick_outcome(),
            old(self)@.paused || old(self)@.phase == Phase::Idle ==> final(self)@ == old(self)@,
            !old(self)@.paused && old(self)@.phase != Phase::Idle && old(self)@.remaining_seconds
                > 1 ==> final(self)@ == (ClockView {
                remaining_seconds: (old(self)@.remaining_seconds - 1) as nat,
                ..old(self)@
            }),
            final(self)@.wf(),
    {
        proof {
            use_type_invariant(&*self);
        }
        let state: SessionState = self.state;
        if state.phase == Phase::Idle || state.paused || state.remaining_seconds == 0 {
            return TickOutcome::Skipped;
        }
        let left: u32 = state.remaining_seconds - 1;
        if left > 0 {
            self.state = SessionState { remaining_seconds: left, ..state };
            return TickOutcome::Counted;
        }
        let minutes: u32 = self.config.work_minutes();
        let count: u32 = self.config.session_count();
        match state.phase {
            Phase::Working => {
                if state.session_index >= count {
                    self.state = SessionState {
                        phase: Phase::Idle,
                        remaining_seconds: 0,
                        paused: true,
                        ..state
                    };
                    TickOutcome::Completed
                } else {
                    self.state = SessionState {
                        phase: Phase::Break,
                        remaining_seconds: break_duration(minutes),
                        paused: true,
                        ..state
                    };
                    TickOutcome::BreakStarted
                }
            },
            _ => {
                self.state = SessionState {
                    phase: Phase::Working,
                    session_index: state.session_index + 1,
                    remaining_seconds: minutes * SECONDS_PER_MINUTE,
                    paused: true,
                    ..state
                };
                TickOutcome::WorkStarted
            },
        }
    }

    /// Pauses a running clock and resumes a paused one.
    pub fn toggle_pause(&mut self)
        ensures
            final(self)@ == old(self)@.toggled(),
            final(self)@.paused == !old(self)@.paused,
            final(self)@.wf(),
    {
        proof {
            use_type_invariant(&*self);
        }
        let state: SessionState = self.state;
        self.state = SessionState { paused: !state.paused, ..state };
    }

    /// Abandons the run: the clock becomes idle at once.
    pub fn stop(&mut self)
        ensures
            final(self)@ == old(self)@.stopped(),
            final(self)@.phase == Phase::Idle,
            final(self)@.wf(),
    {
        proof {
            use_type_invariant(&*self);
        }
        let state: SessionState = self.state;
        self.state = SessionState { phase: Phase::Idle, ..state };
    }

    /// The configuration of the run.
    pub fn config(&self) -> (config: Configuration)
        ensures
            config@ == self@.config,
    {
        self.config
    }

    /// A snapshot of the state.
    pub fn state(&self) -> (state: SessionState)
        ensures
            state.phase == self@.phase,
            state.session_index == self@.session_index,
            state.remaining_seconds == self@.remaining_seconds,
            state.paused == self@.paused,
            self@.wf(),
    {
        proof {
            use_type_invariant(self);
        }
        self.state
    }
}

/// A break lasts ten minutes after a work session of forty minutes or more
/// and five minutes after a shorter one.
pub proof fn lemma_break_duration(work_minutes: nat)
    ensures
        work_minutes >= 40 ==> break_duration_spec(work_minutes) == 600,
        work_minutes < 40 ==> break_duration_spec(work_minutes) == 300,
{
}

/// Every operation of the clock leads from a well-formed state to a
/// well-formed state.
pub proof fn lemma_operations_preserve_wf(c: ClockView, config: ConfigurationView)
    requires
        c.wf(),
        config.wf(),
    ensures
        ClockView::fresh(config).wf(),
        c.configured(config).wf(),
        c.started().wf(),
        c.ticked().wf(),
        c.toggled().wf(),
        c.stopped().wf(),
{
}

/// A tick changes nothing while the clock is paused or idle.
pub proof fn lemma_tick_is_noop_when_paused_or_idle(c: ClockView)
    requires
        c.paused || c.phase == Phase::Idle,
    ensures
        c.ticked() == c,
        c.tick_outcome() == TickOutcome::Skipped,
{
}

/// A tick of a running clock with more than one second left takes exactly
/// one second off and changes nothing else.
pub proof fn lemma_tick_counts_one_second(c: ClockView)
    requires
        c.phase != Phase::Idle,
        !c.paused,
        c.remaining_seconds > 1,
    ensures
        c.ticked() == (ClockView { remaining_seconds: (c.remaining_seconds - 1) as nat, ..c }),
        c.tick_outcome() == TickOutcome::Counted,
{
}

/// The phase changes only on the tick that takes the last second, and that
/// tick leaves the clock paused.
pub proof fn lemma_phase_changes_only_at_zero(c: ClockView)
    requires
        c.ticked().phase != c.phase,
    ensures
        c.running(),
        c.remaining_seconds == 1,
        c.ticked() == c.transitioned(),
        c.ticked().paused,
{
}

/// A tick never changes the configuration, and it changes the session index
/// only by adding one when a break gives way to work.
pub proof fn lemma_session_index_steps(c: ClockView)
    ensures
        c.ticked().config == c.config,
        c.ticked().session_index == c.session_index || (c.phase == Phase::Break
            && c.ticked().phase == Phase::Working && c.ticked().session_index == c.session_index
            + 1),
{
}

/// While running, `k` ticks with more than `k` seconds left take exactly `k`
/// seconds off and change nothing else.
pub proof fn lemma_ticks_count_down(c: ClockView, k: nat)
    requires
        c.phase != Phase::Idle,
        !c.paused,
        k < c.remaining_seconds,
    ensures
        c.ticked_times(k) == (ClockView { remaining_seconds: (c.remaining_seconds - k) as nat, ..c }),
    decreases k,
{
    if k > 0 {
        lemma_ticks_count_down(c.ticked(), (k - 1) as nat);
    }
}

/// Ticks in a row add up: `m + n` ticks are `m` ticks and then `n` more.
pub proof fn lemma_ticks_add(c: ClockView, m: nat, n: nat)
    ensures
        c.ticked_times(m + n) == c.ticked_times(m).ticked_times(n),
    decreases m,
{
    if m > 0 {
        lemma_ticks_add(c.ticked(), (m - 1) as nat, n);
        assert((m + n - 1) as nat == (m - 1) as nat + n);
    }
}

/// A running clock reaches the end of its phase after exactly as many ticks
/// as it has seconds left.
pub proof fn lemma_phase_runs_out(c: ClockView)
    requires
        c.running(),
    ensures
        c.ticked_times(c.remaining_seconds) == c.transitioned(),
{
    let k = (c.remaining_seconds - 1) as nat;
    lemma_ticks_count_down(c, k);
    lemma_ticks_add(c, k, 1);
    let last = c.ticked_times(k);
    assert(last.ticked_times(1) == last.ticked()) by {
        assert(last.ticked().ticked_times(0) == last.ticked());
    }
}

/// Once the clock has stopped counting (paused or idle), any number of
/// further ticks changes nothing.
pub proof fn lemma_ticks_are_noops_when_paused_or_idle(c: ClockView, n: nat)
    requires
        c.paused || c.phase == Phase::Idle,
    ensures
        c.ticked_times(n) == c,
    decreases n,
{
    if n > 0 {
        lemma_ticks_are_noops_when_paused_or_idle(c, (n - 1) as nat);
    }
}

/// A run of a single session: started, it goes idle after exactly the
/// seconds of one work session, with no break.
pub proof fn lemma_single_session_run(c: ClockView)
    requires
        c.wf(),
        c.session_index == c.config.session_count,
    ensures
        c.started().ticked_times(work_duration(c.config.work_minutes)).phase == Phase::Idle,
        forall|k: nat|
            k < work_duration(c.config.work_minutes) ==> (#[trigger] c.started().ticked_times(
                k,
            )).phase == Phase::Working,
{
    let s = c.started();
    lemma_phase_runs_out(s);
    assert forall|k: nat| k < work_duration(c.config.work_minutes) implies (
    #[trigger] s.ticked_times(k)).phase == Phase::Working by {
        lemma_ticks_count_down(s, k);
    }
}

/// A work session that is not the last gives way to a paused break of the
/// length that `break_duration` gives; resumed, the break gives way to the
/// next work session, paused, with a whole session on the clock.
pub proof fn lemma_work_then_break_then_work(c: ClockView)
    requires
        c.wf(),
        c.session_index < c.config.session_count,
    ensures
        ({
            let at_break = c.started().ticked_times(work_duration(c.config.work_minutes));
            let at_work = at_break.toggled().ticked_times(
                break_duration_spec(c.config.work_minutes),
            );
            &&& at_break == (ClockView {
                phase: Phase::Break,
                remaining_seconds: break_duration_spec(c.config.work_minutes),
                paused: true,
                ..c
            })
            &&& at_work == (ClockView {
                phase: Phase::Working,
                session_index: c.session_index + 1,
                remaining_seconds: work_duration(c.config.work_minutes),
                paused: true,
                ..c
            })
        }),
{
    let s = c.started();
    lemma_phase_runs_out(s);
    let at_break = s.ticked_times(work_duration(c.config.work_minutes));
    lemma_phase_runs_out(at_break.toggled());
}

/// A run of two sessions, resumed after each change of phase: work, break,
/// work, and then idle, with no second break.
pub proof fn lemma_two_session_run(c: ClockView)
    requires
        c.wf(),
        c.session_index + 1 == c.config.session_count,
    ensures
        ({
            let work = work_duration(c.config.work_minutes);
            let rest = break_duration_spec(c.config.work_minutes);
            let at_break = c.started().ticked_times(work);
            let at_work = at_break.toggled().ticked_times(rest);
            let at_end = at_work.toggled().ticked_times(work);
            &&& at_break.phase == Phase::Break
            &&& at_break.remaining_seconds == rest
            &&& at_work.phase == Phase::Working
            &&& at_work.session_index == c.session_index + 1
            &&& at_work.remaining_seconds == work
            &&& at_end.phase == Phase::Idle
            &&& at_end.session_index == c.session_index + 1
        }),
{
    lemma_work_then_break_then_work(c);
    let work = work_duration(c.config.work_minutes);
    let rest = break_duration_spec(c.config.work_minutes);
    let at_work = c.started().ticked_times(work).toggled().ticked_times(rest);
    lemma_phase_runs_out(at_work.toggled());
}

/// Pausing twice is the same as not pausing at all.
pub proof fn lemma_toggle_pause_is_involutive(c: ClockView)
    ensures
        c.toggled().toggled() == c,
{
}

} // verus!
