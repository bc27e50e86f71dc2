//! What the user chooses before a run: an activity, the length of a work
//! session and the number of sessions.

use vstd::prelude::*;
use vstd::string::*;

verus! {

/// Shortest work session, in minutes.
pub const MIN_WORK_MINUTES: u32 = 1;

/// Longest work session, in minutes.
pub const MAX_WORK_MINUTES: u32 = 60;

/// Fewest sessions in a run.
pub const MIN_SESSION_COUNT: u32 = 1;

/// Most sessions in a run.
pub const MAX_SESSION_COUNT: u32 = 12;

/// `value` forced into `lo..=hi`.
pub open spec fn clamped(value: int, lo: int, hi: int) -> int {
    if value < lo {
        lo
    } else if value > hi {
        hi
    } else {
        value
    }
}

/// What the user is going to do during the work sessions.
#[derive(Clone, Copy, Debug, PartialEq, Eq, Structural)]
pub enum Activity {
    Studying,
    Coding,
    DeepWork,
    Reading,
}

/// The name under which an activity is shown.
pub open spec fn activity_label(activity: Activity) -> Seq<char> {
    match activity {
        Activity::Studying => "Studying 📚"@,
        Activity::Coding => "Coding 💻"@,
        Activity::DeepWork => "Deep Work 🧠"@,
        Activity::Reading => "Reading 📖"@,
    }
}

/// The place of an activity in the list from which the user chooses.
pub open spec fn activity_position(activity: Activity) -> nat {
    match activity {
        Activity::Studying => 0,
        Activity::Coding => 1,
        Activity::DeepWork => 2,
        Activity::Reading => 3,
    }
}

/// The activity at a place in the list.
pub open spec fn activity_at(position: int) -> Activity {
    if position <= 0 {
        Activity::Studying
    } else if position == 1 {
        Activity::Coding
    } else if position == 2 {
        Activity::DeepWork
    } else {
        Activity::Reading
    }
}

/// The activity one place up the list; the first stays the first.
pub open spec fn previous_activity(activity: Activity) -> Activity {
    activity_at(clamped(activity_position(activity) - 1, 0, 3))
}

/// The activity one place down the list; the last stays the last.
pub open spec fn next_activity(activity: Activity) -> Activity {
    activity_at(clamped(activity_position(activity) as int + 1, 0, 3))
}

impl Activity {
    /// The name under which the activity is shown.
    pub fn label(&self) -> (label: &'static str)
        ensures
            label@ == activity_label(*self),
    {
        match self {
            Activity::Studying => "Studying 📚",
            Activity::Coding => "Coding 💻",
            Activity::DeepWork => "Deep Work 🧠",
            Activity::Reading => "Reading 📖",
        }
    }

    /// The place of the activity in the list from which the user chooses.
    pub fn position(&self) -> (position: usize)
        ensures
            position == activity_position(*self),
    {
        match self {
            Activity::Studying => 0,
            Activity::Coding => 1,
            Activity::DeepWork => 2,
            Activity::Reading => 3,
        }
    }

    /// The activity one place up the list; the first stays the first.
    pub fn previous(&self) -> (activity: Activity)
        ensures
            activity == previous_activity(*self),
    {
        match self {
            Activity::Studying => Activity::Studying,
            Activity::Coding => Activity::Studying,
            Activity::DeepWork => Activity::Coding,
            Activity::Reading => Activity::DeepWork,
        }
    }

    /// The activity one place down the list; the last stays the last.
    pub fn next(&self) -> (activity: Activity)
        ensures
            activity == next_activity(*self),
    {
        match self {
            Activity::Studying => Activity::Coding,
            Activity::Coding => Activity::DeepWork,
            Activity::DeepWork => Activity::Reading,
            Activity::Reading => Activity::Reading,
        }
    }
}

/// The mathematical content of a [`Configuration`].
pub struct ConfigurationView {
    pub activity: Activity,
    pub work_minutes: nat,
    pub session_count: nat,
}

impl ConfigurationView {
    /// Both numbers lie in their ranges.
    pub open spec fn wf(self) -> bool {
        &&& MIN_WORK_MINUTES <= self.work_minutes <= MAX_WORK_MINUTES
        &&& MIN_SESSION_COUNT <= self.session_count <= MAX_SESSION_COUNT
    }

    /// With the work session `delta` minutes longer, within the range.
    pub open spec fn with_minutes_changed(self, delta: int) -> ConfigurationView {
        ConfigurationView {
            work_minutes: clamped(
                self.work_minutes + delta,
                MIN_WORK_MINUTES as int,
                MAX_WORK_MINUTES as int,
            ) as nat,
            ..self
        }
    }

    /// With `delta` sessions more, within the range.
    pub open spec fn with_sessions_changed(self, delta: int) -> ConfigurationView {
        ConfigurationView {
            session_count: clamped(
                self.session_count + delta,
                MIN_SESSION_COUNT as int,
                MAX_SESSION_COUNT as int,
            ) as nat,
            ..self
        }
    }

    /// With another activity.
    pub open spec fn with_activity(self, activity: Activity) -> ConfigurationView {
        ConfigurationView { activity, ..self }
    }
}

/// A validated choice of activity, session length and session count.
#[derive(Clone, Copy, Debug, PartialEq, Eq)]
pub struct Configuration {
    activity: Activity,
    work_minutes: u32,
    session_count: u32,
}

impl View for Configuration {
    type V = ConfigurationView;

    closed spec fn view(&self) -> ConfigurationView {
        ConfigurationView {
            activity: self.activity,
            work_minutes: self.work_minutes as nat,
            session_count: self.session_count as nat,
        }
    }
}

impl Configuration {
    /// Every value of this type has a well-formed view.
    #[verifier::type_invariant]
    pub open spec fn inv(self) -> bool {
        self@.wf()
    }

    /// A configuration with both numbers clamped into their ranges.
    pub fn new(activity: Activity, work_minutes: u32, session_count: u32) -> (cfg: Configuration)
        ensures
            cfg@.wf(),
            cfg@.activity == activity,
            cfg@.work_minutes == clamped(work_minutes as int, 1, 60),
            cfg@.session_count == clamped(session_count as int, 1, 12),
    {
        let minutes: u32 = if work_minutes < MIN_WORK_MINUTES {
            MIN_WORK_MINUTES
        } else if work_minutes > MAX_WORK_MINUTES {
            MAX_WORK_MINUTES
        } else {
            work_minutes
        };
        let count: u32 = if session_count < MIN_SESSION_COUNT {
            MIN_SESSION_COUNT
        } else if session_count > MAX_SESSION_COUNT {
            MAX_SESSION_COUNT
        } else {
            session_count
        };
        Configuration { activity, work_minutes: minutes, session_count: count }
    }

    /// The chosen activity.
    pub fn activity(&self) -> (a: Activity)
        ensures
            a == self@.activity,
    {
        self.activity
    }

    /// Minutes in one work session.
    pub fn work_minutes(&self) -> (m: u32)
        ensures
            m == self@.work_minutes,
            1 <= m <= 60,
    {
        proof {
            use_type_invariant(self);
        }
        self.work_minutes
    }

    /// Sessions in one run.
    pub fn session_count(&self) -> (n: u32)
        ensures
            n == self@.session_count,
            1 <= n <= 12,
    {
        proof {
            use_type_invariant(self);
        }
        self.session_count
    }

    /// One minute more per work session, up to the longest allowed.
    pub fn increase_work_minutes(&mut self)
        ensures
            final(self)@ == old(self)@.with_minutes_changed(1),
    {
        proof {
            use_type_invariant(&*self);
        }
        if self.work_minutes < MAX_WORK_MINUTES {
            self.work_minutes = self.work_minutes + 1;
        }
    }

    /// One minute less per work session, down to the shortest allowed.
    pub fn decrease_work_minutes(&mut self)
        ensures
            final(self)@ == old(self)@.with_minutes_changed(-1),
    {
        proof {
            use_type_invariant(&*self);
        }
        if self.work_minutes > MIN_WORK_MINUTES {
            self.work_minutes = self.work_minutes - 1;
        }
    }

    /// One session more per run, up to the most allowed.
    pub fn increase_session_count(&mut self)
        ensures
            final(self)@ == old(self)@.with_sessions_changed(1),
    {
        proof {
            use_type_invariant(&*self);
        }
        if self.session_count < MAX_SESSION_COUNT {
            self.session_count = self.session_count + 1;
        }
    }

    /// One session less per run, down to the fewest allowed.
    pub fn decrease_session_count(&mut self)
        ensures
            final(self)@ == old(self)@.with_sessions_changed(-1),
    {
        proof {
            use_type_invariant(&*self);
        }
        if self.session_count > MIN_SESSION_COUNT {
            self.session_count = self.session_count - 1;
        }
    }

    /// Chooses another activity.
    pub fn set_activity(&mut self, activity: Activity)
        ensures
            final(self)@ == old(self)@.with_activity(activity),
    {
        proof {
            use_type_invariant(&*self);
        }
        self.activity = activity;
    }
}

impl Default for Configuration {
    /// Studying, in four sessions of twenty-five minutes.
    fn default() -> (cfg: Configuration)
        ensures
            cfg@ == (ConfigurationView {
                activity: Activity::Studying,
                work_minutes: 25,
                session_count: 4,
            }),
    {
        Configuration { activity: Activity::Studying, work_minutes: 25, session_count: 4 }
    }
}

} // verus!
