//! The wizard: the screens that walk the user through the set-up of a run and
//! then show the timer, as one state machine from keys to effects.

use vstd::prelude::*;
use vstd::string::*;
use crate::audio::{request_view, AudioAction, PlayRequest, PlayRequestView};
use crate::clock::{Phase, TickOutcome};
use crate::config::{next_activity, previous_activity, Configuration, ConfigurationView};
use crate::import::{
    import_request,
    ImportRequest,
    ImportRequestView,
    ImportStatus,
    ImportTask,
    ImportView,
};
use crate::library::{listing, listing_wf, texts, TrackLibrary};
use crate::session::{notice_body, notice_title, FocusSession, SessionView, TickReport};
use crate::text::{pop_char, push_char};

verus! {

/// Percent by which one key press changes the volume.
pub const VOLUME_STEP: i32 = 5;

/// What the user sees.
#[derive(Clone, Copy, Debug, PartialEq, Eq, Structural)]
pub enum Screen {
    Activity,
    Duration,
    Sessions,
    Tracks,
    TrackImport,
    Settings,
    Timer,
}

/// A key press.
#[derive(Clone, Copy, Debug, PartialEq, Eq, Structural)]
pub enum Key {
    Up,
    Down,
    Left,
    Right,
    Enter,
    Escape,
    Backspace,
    Char(char),
    Other,
}

/// The colour scheme.
#[derive(Clone, Copy, Debug, PartialEq, Eq, Structural)]
pub enum Theme {
    Cyan,
    Magenta,
    Green,
    Yellow,
    Red,
}

/// The rows of the settings screen.
#[derive(Clone, Copy, Debug, PartialEq, Eq, Structural)]
pub enum SettingsRow {
    Notifications,
    Theme,
}

/// What is to be done outside the wizard after a key press.
#[derive(Debug, PartialEq, Eq)]
pub enum Effect {
    /// Nothing.
    Nothing,
    /// Leave the program.
    Quit,
    /// Read the track directory and hand the file names to `rescanned`.
    Rescan,
    /// Do this to the live playback resource.
    Audio(AudioAction),
    /// Release the live playback resource; then open what is asked for, if
    /// anything, and report to `audio_opened` whether that worked.
    Play(Option<PlayRequest>),
    /// Run the converter, and report to the import task how the run ended.
    Import(ImportRequest),
}

/// The mathematical content of an [`Effect`].
pub enum EffectView {
    Nothing,
    Quit,
    Rescan,
    Audio(AudioAction),
    Play(Option<PlayRequestView>),
    Import(ImportRequestView),
}

impl View for Effect {
    type V = EffectView;

    open spec fn view(&self) -> EffectView {
        match *self {
            Effect::Nothing => EffectView::Nothing,
            Effect::Quit => EffectView::Quit,
            Effect::Rescan => EffectView::Rescan,
            Effect::Audio(action) => EffectView::Audio(action),
            Effect::Play(request) => EffectView::Play(request_view(request)),
            Effect::Import(request) => EffectView::Import(request@),
        }
    }
}

/// The theme that follows a theme, in a circle.
pub open spec fn next_theme(theme: Theme) -> Theme {
    match theme {
        Theme::Cyan => Theme::Magenta,
        Theme::Magenta => Theme::Green,
        Theme::Green => Theme::Yellow,
        Theme::Yellow => Theme::Red,
        Theme::Red => Theme::Cyan,
    }
}

impl Theme {
    /// The theme that follows this one, in a circle.
    pub fn next(&self) -> (theme: Theme)
        ensures
            theme == next_theme(*self),
    {
        match self {
            Theme::Cyan => Theme::Magenta,
            Theme::Magenta => Theme::Green,
            Theme::Green => Theme::Yellow,
            Theme::Yellow => Theme::Red,
            Theme::Red => Theme::Cyan,
        }
    }
}

/// The key is the given letter.
pub open spec fn is_char(key: Key, c: char) -> bool {
    key == Key::Char(c)
}

/// The key moves up: the arrow or `k`.
pub open spec fn moves_up(key: Key) -> bool {
    key == Key::Up || is_char(key, 'k')
}

/// The key moves down: the arrow or `j`.
pub open spec fn moves_down(key: Key) -> bool {
    key == Key::Down || is_char(key, 'j')
}

/// The key goes on to the next screen: Enter or `l`.
pub open spec fn goes_on(key: Key) -> bool {
    key == Key::Enter || is_char(key, 'l')
}

/// The key goes back to the screen before: Escape or `h`.
pub open spec fn goes_back(key: Key) -> bool {
    key == Key::Escape || is_char(key, 'h')
}

/// The key changes the setting in the current row: left or right, by arrow
/// or by letter.
pub open spec fn changes_setting(key: Key) -> bool {
    key == Key::Left || key == Key::Right || is_char(key, 'h') || is_char(key, 'l')
}

/// The mathematical content of a [`Wizard`].
pub struct WizardView {
    pub screen: Screen,
    pub config: ConfigurationView,
    pub track_cursor: nat,
    pub input: Seq<char>,
    pub settings_row: SettingsRow,
    pub theme: Theme,
    pub session: SessionView,
    pub library: Seq<Seq<char>>,
}

/// What a key press leads to: the wizard and the import task afterwards, and
/// what is to be done outside.
pub struct Step {
    pub wizard: WizardView,
    pub import: ImportView,
    pub effect: EffectView,
}

impl WizardView {
    /// The parts are well-formed, the timer is on the screen exactly while
    /// the clock times a phase, and the cursor points at an entry of the
    /// library.
    pub open spec fn wf(self) -> bool {
        &&& self.config.wf()
        &&& self.session.wf()
        &&& listing_wf(self.library)
        &&& self.track_cursor < self.library.len()
        &&& self.screen == Screen::Timer <==> self.session.clock.phase != Phase::Idle
    }

    /// A wizard at its first screen, with the default choices.
    pub open spec fn initial(config: ConfigurationView, library: Seq<Seq<char>>) -> WizardView {
        WizardView {
            screen: Screen::Activity,
            config,
            track_cursor: 0,
            input: Seq::empty(),
            settings_row: SettingsRow::Notifications,
            theme: Theme::Cyan,
            session: SessionView::initial(config),
            library,
        }
    }

    /// A step that changes nothing.
    pub open spec fn stay(self, import: ImportView) -> Step {
        Step { wizard: self, import, effect: EffectView::Nothing }
    }

    /// A step that changes the wizard alone.
    pub open spec fn go(self, wizard: WizardView, import: ImportView) -> Step {
        Step { wizard, import, effect: EffectView::Nothing }
    }

    /// While an import is in flight or waits to be acknowledged, keys do
    /// nothing, but that Enter acknowledges a job that has ended: the
    /// directory is to be read again, and the track list comes back unless
    /// the timer is on the screen.
    pub open spec fn step_while_importing(self, key: Key, import: ImportView) -> Step {
        if import.ended() && key == Key::Enter {
            Step {
                wizard: WizardView {
                    screen: if self.screen == Screen::Timer {
                        Screen::Timer
                    } else {
                        Screen::Tracks
                    },
                    ..self
                },
                import: import.acknowledged(),
                effect: EffectView::Rescan,
            }
        } else {
            self.stay(import)
        }
    }

    /// The activity screen: choose up and down, go on to the duration, open
    /// the settings with `s`, leave with `q`.
    pub open spec fn step_activity(self, key: Key, import: ImportView) -> Step {
        if moves_up(key) {
            self.go(
                WizardView {
                    config: self.config.with_activity(previous_activity(self.config.activity)),
                    ..self
                },
                import,
            )
        } else if moves_down(key) {
            self.go(
                WizardView {
                    config: self.config.with_activity(next_activity(self.config.activity)),
                    ..self
                },
                import,
            )
        } else if goes_on(key) {
            self.go(WizardView { screen: Screen::Duration, ..self }, import)
        } else if is_char(key, 's') {
            self.go(WizardView { screen: Screen::Settings, ..self }, import)
        } else if is_char(key, 'q') {
            Step { wizard: self, import, effect: EffectView::Quit }
        } else {
            self.stay(import)
        }
    }

    /// The duration screen: a minute more or less, on to the sessions, back
    /// to the activity.
    pub open spec fn step_duration(self, key: Key, import: ImportView) -> Step {
        if moves_up(key) {
            self.go(WizardView { config: self.config.with_minutes_changed(1), ..self }, import)
        } else if moves_down(key) {
            self.go(WizardView { config: self.config.with_minutes_changed(-1), ..self }, import)
        } else if goes_on(key) {
            self.go(WizardView { screen: Screen::Sessions, ..self }, import)
        } else if goes_back(key) {
            self.go(WizardView { screen: Screen::Activity, ..self }, import)
        } else {
            self.stay(import)
        }
    }

    /// The sessions screen: a session more or less, on to the tracks (whose
    /// directory is to be read on the way), back to the duration.
    pub open spec fn step_sessions(self, key: Key, import: ImportView) -> Step {
        if moves_up(key) {
            self.go(WizardView { config: self.config.with_sessions_changed(1), ..self }, import)
        } else if moves_down(key) {
            self.go(WizardView { config: self.config.with_sessions_changed(-1), ..self }, import)
        } else if goes_on(key) {
            Step {
                wizard: WizardView { screen: Screen::Tracks, ..self },
                import,
                effect: EffectView::Rescan,
            }
        } else if goes_back(key) {
            self.go(WizardView { screen: Screen::Duration, ..self }, import)
        } else {
            self.stay(import)
        }
    }

    /// The wizard when the run begins: the session takes the configuration,
    /// its clock starts, the track under the cursor is asked for, and the
    /// timer comes on the screen.
    pub open spec fn begun(self) -> WizardView {
        WizardView {
            screen: Screen::Timer,
            session: self.session.configured(self.config).begun(self.library, self.track_cursor),
            ..self
        }
    }

    /// The tracks screen: `i` opens the import with an empty input line; the
    /// cursor moves up and down within the list; going on begins the run;
    /// going back returns to the sessions.
    pub open spec fn step_tracks(self, key: Key, import: ImportView) -> Step {
        if is_char(key, 'i') {
            self.go(
                WizardView { screen: Screen::TrackImport, input: Seq::empty(), ..self },
                import,
            )
        } else if moves_up(key) {
            self.go(
                WizardView {
                    track_cursor: if self.track_cursor > 0 {
                        (self.track_cursor - 1) as nat
                    } else {
                        0
                    },
                    ..self
                },
                import,
            )
        } else if moves_down(key) {
            self.go(
                WizardView {
                    track_cursor: if self.track_cursor + 1 < self.library.len() {
                        self.track_cursor + 1
                    } else {
                        self.track_cursor
                    },
                    ..self
                },
                import,
            )
        } else if goes_on(key) {
            Step {
                wizard: self.begun(),
                import,
                effect: EffectView::Play(
                    self.session.audio.play_request(self.library, self.track_cursor, false),
                ),
            }
        } else if goes_back(key) {
            self.go(WizardView { screen: Screen::Sessions, ..self }, import)
        } else {
            self.stay(import)
        }
    }

    /// The import screen: Enter submits the input line and clears it; a
    /// character is added to the line; Backspace takes the last one off;
    /// Escape returns to the tracks.
    pub open spec fn step_track_import(self, key: Key, import: ImportView) -> Step {
        match key {
            Key::Enter => Step {
                wizard: WizardView { input: Seq::empty(), ..self },
                import: import.submitted(self.input),
                effect: if import.status == ImportStatus::Running {
                    EffectView::Nothing
                } else {
                    EffectView::Import(import_request(self.input))
                },
            },
            Key::Char(c) => self.go(WizardView { input: self.input.push(c), ..self }, import),
            Key::Backspace => self.go(
                WizardView {
                    input: if self.input.len() > 0 {
                        self.input.drop_last()
                    } else {
                        self.input
                    },
                    ..self
                },
                import,
            ),
            Key::Escape => self.go(WizardView { screen: Screen::Tracks, ..self }, import),
            _ => self.stay(import),
        }
    }

    /// The settings screen: up and down choose the row; left and right turn
    /// the notices on or off, or take the next theme; Escape or `q` return
    /// to the activity.
    pub open spec fn step_settings(self, key: Key, import: ImportView) -> Step {
        if moves_up(key) {
            self.go(WizardView { settings_row: SettingsRow::Notifications, ..self }, import)
        } else if moves_down(key) {
            self.go(WizardView { settings_row: SettingsRow::Theme, ..self }, import)
        } else if changes_setting(key) {
            if self.settings_row == SettingsRow::Notifications {
                self.go(
                    WizardView {
                        session: self.session.notifications_set(
                            !self.session.notifications_enabled,
                        ),
                        ..self
                    },
                    import,
                )
            } else {
                self.go(WizardView { theme: next_theme(self.theme), ..self }, import)
            }
        } else if key == Key::Escape || is_char(key, 'q') {
            self.go(WizardView { screen: Screen::Activity, ..self }, import)
        } else {
            self.stay(import)
        }
    }

    /// The timer screen: the space bar pauses and resumes; `+` or `=` and
    /// `-` or `_` change the volume by one step; `q`, Escape or `h` abandon
    /// the run and return to the activity.
    pub open spec fn step_timer(self, key: Key, import: ImportView) -> Step {
        if is_char(key, ' ') {
            Step {
                wizard: WizardView { session: self.session.toggled(), ..self },
                import,
                effect: EffectView::Audio(self.session.toggle_action()),
            }
        } else if is_char(key, '+') || is_char(key, '=') {
            Step {
                wizard: WizardView { session: self.session.volume_adjusted(5), ..self },
                import,
                effect: EffectView::Audio(self.session.volume_action(5)),
            }
        } else if is_char(key, '-') || is_char(key, '_') {
            Step {
                wizard: WizardView { session: self.session.volume_adjusted(-5), ..self },
                import,
                effect: EffectView::Audio(self.session.volume_action(-5)),
            }
        } else if is_char(key, 'q') || goes_back(key) {
            Step {
                wizard: WizardView {
                    screen: Screen::Activity,
                    session: self.session.quitted(),
                    ..self
                },
                import,
                effect: EffectView::Audio(AudioAction::Release),
            }
        } else {
            self.stay(import)
        }
    }

    /// What a key press leads to.
    pub open spec fn step(self, key: Key, import: ImportView) -> Step {
        if import.status != ImportStatus::Idle {
            self.step_while_importing(key, import)
        } else {
            match self.screen {
                Screen::Activity => self.step_activity(key, import),
                Screen::Duration => self.step_duration(key, import),
                Screen::Sessions => self.step_sessions(key, import),
                Screen::Tracks => self.step_tracks(key, import),
                Screen::TrackImport => self.step_track_import(key, import),
                Screen::Settings => self.step_settings(key, import),
                Screen::Timer => self.step_timer(key, import),
            }
        }
    }

    /// The state after `on_tick()`: the session ticks, and when the run is
    /// complete the activity screen comes back.
    pub open spec fn ticked(self) -> WizardView {
        WizardView {
            screen: if self.session.clock.tick_outcome() == TickOutcome::Completed {
                Screen::Activity
            } else {
                self.screen
            },
            session: self.session.ticked(),
            ..self
        }
    }

    /// The state after `rescanned(file_names)`: the library lists what was
    /// found, and the cursor stays within it.
    pub open spec fn rescanned(self, library: Seq<Seq<char>>) -> WizardView {
        WizardView {
            library,
            track_cursor: if self.track_cursor < library.len() {
                self.track_cursor
            } else {
                (library.len() - 1) as nat
            },
            ..self
        }
    }
}

/// Whether the key is the given character.
fn key_is_char(key: Key, c: char) -> (found: bool)
    ensures
        found == is_char(key, c),
{
    key == Key::Char(c)
}

/// Whether the key moves up.
fn key_moves_up(key: Key) -> (found: bool)
    ensures
        found == moves_up(key),
{
    key == Key::Up || key_is_char(key, 'k')
}

/// Whether the key moves down.
fn key_moves_down(key: Key) -> (found: bool)
    ensures
        found == moves_down(key),
{
    key == Key::Down || key_is_char(key, 'j')
}

/// Whether the key goes on to the next screen.
fn key_goes_on(key: Key) -> (found: bool)
    ensures
        found == goes_on(key),
{
    key == Key::Enter || key_is_char(key, 'l')
}

/// Whether the key goes back to the screen before.
fn key_goes_back(key: Key) -> (found: bool)
    ensures
        found == goes_back(key),
{
    key == Key::Escape || key_is_char(key, 'h')
}

/// Whether the key changes the setting in the current row.
fn key_changes_setting(key: Key) -> (found: bool)
    ensures
        found == changes_setting(key),
{
    key == Key::Left || key == Key::Right || key_is_char(key, 'h') || key_is_char(key, 'l')
}

/// The wizard: the screen, the choices made so far, the session and the
/// track library.
#[derive(Debug, PartialEq, Eq)]
pub struct Wizard {
    /// The set-up screen to show while the clock is idle.
    menu: Screen,
    config: Configuration,
    track_cursor: usize,
    input: String,
    settings_row: SettingsRow,
    theme: Theme,
    session: FocusSession,
    library: TrackLibrary,
}

impl View for Wizard {
    type V = WizardView;

    closed spec fn view(&self) -> WizardView {
        WizardView {
            screen: if self.session@.clock.phase != Phase::Idle {
                Screen::Timer
            } else {
                self.menu
            },
            config: self.config@,
            track_cursor: self.track_cursor as nat,
            input: self.input@,
            settings_row: self.settings_row,
            theme: self.theme,
            session: self.session@,
            library: self.library@,
        }
    }
}

impl Wizard {
    /// The screen kept for the idle clock is a set-up screen, and it is the
    /// first one while the timer is shown.
    pub closed spec fn menu_wf(self) -> bool {
        &&& self.menu != Screen::Timer
        &&& self.session@.clock.phase != Phase::Idle ==> self.menu == Screen::Activity
    }

    /// Every value of this type has a well-formed view.
    #[verifier::type_invariant]
    pub open spec fn inv(self) -> bool {
        self@.wf() && self.menu_wf()
    }

    /// A wizard at its first screen, for a first choice of configuration and
    /// the tracks found so far.
    pub fn new(config: Configuration, library: TrackLibrary) -> (wizard: Wizard)
        ensures
            wizard@ == WizardView::initial(config@, library@),
            wizard@.wf(),
    {
        let session: FocusSession = FocusSession::new(config);
        proof {
            use_type_invariant(&config);
            use_type_invariant(&library);
        }
        Wizard {
            menu: Screen::Activity,
            config,
            track_cursor: 0,
            input: String::new(),
            settings_row: SettingsRow::Notifications,
            theme: Theme::Cyan,
            session,
            library,
        }
    }

    /// A key while an import is pending.
    fn on_key_while_importing(&mut self, key: Key, import: &mut ImportTask) -> (effect: Effect)
        requires
            old(import)@.status != ImportStatus::Idle,
        ensures
            old(self)@.step_while_importing(key, old(import)@) == (Step {
                wizard: final(self)@,
                import: final(import)@,
                effect: effect@,
            }),
    {
        proof {
            use_type_invariant(&*self);
        }
        if key == Key::Enter && import.acknowledge() {
            if self.session.clock().state().phase == Phase::Idle {
                self.menu = Screen::Tracks;
            }
            Effect::Rescan
        } else {
            Effect::Nothing
        }
    }

    /// A key on the activity screen.
    fn on_activity_key(&mut self, key: Key, Ghost(import): Ghost<ImportView>) -> (effect: Effect)
        requires
            old(self)@.screen == Screen::Activity,
        ensures
            old(self)@.step_activity(key, import) == (Step {
                wizard: final(self)@,
                import,
                effect: effect@,
            }),
    {
        proof {
            use_type_invariant(&*self);
        }
        if key_moves_up(key) {
            let mut config: Configuration = self.config;
            config.set_activity(config.activity().previous());
            proof {
                use_type_invariant(&config);
            }
            self.config = config;
            Effect::Nothing
        } else if key_moves_down(key) {
            let mut config: Configuration = self.config;
            config.set_activity(config.activity().next());
            proof {
                use_type_invariant(&config);
            }
            self.config = config;
            Effect::Nothing
        } else if key_goes_on(key) {
            self.menu = Screen::Duration;
            Effect::Nothing
        } else if key_is_char(key, 's') {
            self.menu = Screen::Settings;
            Effect::Nothing
        } else if key_is_char(key, 'q') {
            Effect::Quit
        } else {
            Effect::Nothing
        }
    }

    /// A key on the duration screen.
    fn on_duration_key(&mut self, key: Key, Ghost(import): Ghost<ImportView>) -> (effect: Effect)
        requires
            old(self)@.screen == Screen::Duration,
        ensures
            old(self)@.step_duration(key, import) == (Step {
                wizard: final(self)@,
                import,
                effect: effect@,
            }),
    {
        proof {
            use_type_invariant(&*self);
        }
        if key_moves_up(key) {
            let mut config: Configuration = self.config;
            config.increase_work_minutes();
            proof {
                use_type_invariant(&config);
            }
            self.config = config;
        } else if key_moves_down(key) {
            let mut config: Configuration = self.config;
            config.decrease_work_minutes();
            proof {
                use_type_invariant(&config);
            }
            self.config = config;
        } else if key_goes_on(key) {
            self.menu = Screen::Sessions;
        } else if key_goes_back(key) {
            self.menu = Screen::Activity;
        }
        Effect::Nothing
    }

    /// A key on the sessions screen.
    fn on_sessions_key(&mut self, key: Key, Ghost(import): Ghost<ImportView>) -> (effect: Effect)
        requires
            old(self)@.screen == Screen::Sessions,
        ensures
            old(self)@.step_sessions(key, import) == (Step {
                wizard: final(self)@,
                import,
                effect: effect@,
            }),
    {
        proof {
            use_type_invariant(&*self);
        }
        if key_moves_up(key) {
            let mut config: Configuration = self.config;
            config.increase_session_count();
            proof {
                use_type_invariant(&config);
            }
            self.config = config;
            Effect::Nothing
        } else if key_moves_down(key) {
            let mut config: Configuration = self.config;
            config.decrease_session_count();
            proof {
                use_type_invariant(&config);
            }
            self.config = config;
            Effect::Nothing
        } else if key_goes_on(key) {
            self.menu = Screen::Tracks;
            Effect::Rescan
        } else if key_goes_back(key) {
            self.menu = Screen::Duration;
            Effect::Nothing
        } else {
            Effect::Nothing
        }
    }

    /// A key on the tracks screen.
    fn on_tracks_key(&mut self, key: Key, Ghost(import): Ghost<ImportView>) -> (effect: Effect)
        requires
            old(self)@.screen == Screen::Tracks,
        ensures
            old(self)@.step_tracks(key, import) == (Step {
                wizard: final(self)@,
                import,
                effect: effect@,
            }),
    {
        proof {
            use_type_invariant(&*self);
        }
        if key_is_char(key, 'i') {
            self.input = String::new();
            self.menu = Screen::TrackImport;
            Effect::Nothing
        } else if key_moves_up(key) {
            if self.track_cursor > 0 {
                self.track_cursor = self.track_cursor - 1;
            }
            Effect::Nothing
        } else if key_moves_down(key) {
            if self.track_cursor < self.library.len() - 1 {
                self.track_cursor = self.track_cursor + 1;
            }
            Effect::Nothing
        } else if key_goes_on(key) {
            let mut session: FocusSession = self.session;
            session.configure(self.config);
            let request: Option<PlayRequest> = session.begin(self.track_cursor, &self.library);
            self.menu = Screen::Activity;
            self.session = session;
            Effect::Play(request)
        } else if key_goes_back(key) {
            self.menu = Screen::Sessions;
            Effect::Nothing
        } else {
            Effect::Nothing
        }
    }

    /// A key on the import screen.
    fn on_track_import_key(&mut self, key: Key, import: &mut ImportTask) -> (effect: Effect)
        requires
            old(self)@.screen == Screen::TrackImport,
        ensures
            old(self)@.step_track_import(key, old(import)@) == (Step {
                wizard: final(self)@,
                import: final(import)@,
                effect: effect@,
            }),
    {
        proof {
            use_type_invariant(&*self);
        }
        match key {
            Key::Enter => {
                let url: String = self.input.clone();
                self.input = String::new();
                match import.submit(url) {
                    Ok(request) => Effect::Import(request),
                    Err(_) => Effect::Nothing,
                }
            },
            Key::Char(c) => {
                let mut input: String = self.input.clone();
                push_char(&mut input, c);
                self.input = input;
                Effect::Nothing
            },
            Key::Backspace => {
                let mut input: String = self.input.clone();
                pop_char(&mut input);
                self.input = input;
                Effect::Nothing
            },
            Key::Escape => {
                self.menu = Screen::Tracks;
                Effect::Nothing
            },
            _ => Effect::Nothing,
        }
    }

    /// A key on the settings screen.
    fn on_settings_key(&mut self, key: Key, Ghost(import): Ghost<ImportView>) -> (effect: Effect)
        requires
            old(self)@.screen == Screen::Settings,
        ensures
            old(self)@.step_settings(key, import) == (Step {
                wizard: final(self)@,
                import,
                effect: effect@,
            }),
    {
        proof {
            use_type_invariant(&*self);
        }
        if key_moves_up(key) {
            self.settings_row = SettingsRow::Notifications;
        } else if key_moves_down(key) {
            self.settings_row = SettingsRow::Theme;
        } else if key_changes_setting(key) {
            match self.settings_row {
                SettingsRow::Notifications => {
                    let mut session: FocusSession = self.session;
                    session.set_notifications(!session.notifications_enabled());
                    proof {
                        use_type_invariant(&session);
                    }
                    self.session = session;
                },
                SettingsRow::Theme => {
                    self.theme = self.theme.next();
                },
            }
        } else if key == Key::Escape || key_is_char(key, 'q') {
            self.menu = Screen::Activity;
        }
        Effect::Nothing
    }

    /// A key on the timer screen.
    fn on_timer_key(&mut self, key: Key, Ghost(import): Ghost<ImportView>) -> (effect: Effect)
        requires
            old(self)@.screen == Screen::Timer,
        ensures
            old(self)@.step_timer(key, import) == (Step {
                wizard: final(self)@,
                import,
                effect: effect@,
            }),
    {
        proof {
            use_type_invariant(&*self);
        }
        let mut session: FocusSession = self.session;
        if key_is_char(key, ' ') {
            let action: AudioAction = session.toggle_pause();
            self.session = session;
            Effect::Audio(action)
        } else if key_is_char(key, '+') || key_is_char(key, '=') {
            let action: AudioAction = session.adjust_volume(VOLUME_STEP);
            self.session = session;
            Effect::Audio(action)
        } else if key_is_char(key, '-') || key_is_char(key, '_') {
            let action: AudioAction = session.adjust_volume(-VOLUME_STEP);
            self.session = session;
            Effect::Audio(action)
        } else if key_is_char(key, 'q') || key_goes_back(key) {
            let action: AudioAction = session.quit();
            self.session = session;
            Effect::Audio(action)
        } else {
            Effect::Nothing
        }
    }

    /// Takes a key press. While an import is pending the key goes to the
    /// import; else to the screen that is shown. The result says what is to
    /// be done outside the wizard.
    pub fn handle_key(&mut self, key: Key, import: &mut ImportTask) -> (effect: Effect)
        ensures
            final(self)@ == old(self)@.step(key, old(import)@).wizard,
            final(import)@ == old(self)@.step(key, old(import)@).import,
            effect@ == old(self)@.step(key, old(import)@).effect,
            final(self)@.wf(),
    {
        proof {
            use_type_invariant(&*self);
        }
        let ghost pending = import@;
        if import.is_active() {
            let effect: Effect = self.on_key_while_importing(key, import);
            proof {
                use_type_invariant(&*self);
            }
            return effect;
        }
        let effect: Effect = match self.screen() {
            Screen::Activity => self.on_activity_key(key, Ghost(pending)),
            Screen::Duration => self.on_duration_key(key, Ghost(pending)),
            Screen::Sessions => self.on_sessions_key(key, Ghost(pending)),
            Screen::Tracks => self.on_tracks_key(key, Ghost(pending)),
            Screen::TrackImport => self.on_track_import_key(key, import),
            Screen::Settings => self.on_settings_key(key, Ghost(pending)),
            Screen::Timer => self.on_timer_key(key, Ghost(pending)),
        };
        proof {
            use_type_invariant(&*self);
        }
        effect
    }

    /// Counts one elapsed second. The session ticks; when the run is
    /// complete the activity screen comes back.
    pub fn on_tick(&mut self) -> (report: TickReport)
        ensures
            final(self)@ == old(self)@.ticked(),
            final(self)@.wf(),
            report.outcome == old(self)@.session.clock.tick_outcome(),
            report.audio == old(self)@.session.action_after_tick(),
            match report.notice {
                Some(n) => old(self)@.session.notifications_enabled && notice_title(report.outcome)
                    == Some(n.title@) && notice_body(report.outcome) == Some(n.body@),
                None => !old(self)@.session.notifications_enabled || notice_title(
                    report.outcome,
                ).is_none(),
            },
    {
        proof {
            use_type_invariant(&*self);
        }
        let mut session: FocusSession = self.session;
        let report: TickReport = session.on_tick();
        self.session = session;
        report
    }

    /// Records whether the requested track could be opened. The result says
    /// what to do with what was opened.
    pub fn audio_opened(&mut self, success: bool) -> (action: AudioAction)
        ensures
            final(self)@ == (WizardView {
                session: old(self)@.session.open_reported(success),
                ..old(self)@
            }),
            final(self)@.wf(),
            !success ==> !final(self)@.session.audio.playing,
            action == old(self)@.session.open_action(success),
    {
        proof {
            use_type_invariant(&*self);
        }
        let mut session: FocusSession = self.session;
        let action: AudioAction = session.audio_opened(success);
        self.session = session;
        action
    }

    /// Takes the file names found in the track directory: the library lists
    /// the audio files among them, and the cursor stays within the list.
    pub fn rescanned(&mut self, file_names: &Vec<String>)
        ensures
            final(self)@ == old(self)@.rescanned(listing(texts(file_names@))),
            final(self)@.wf(),
    {
        proof {
            use_type_invariant(&*self);
        }
        let library: TrackLibrary = TrackLibrary::scan(file_names);
        if self.track_cursor >= library.len() {
            self.track_cursor = library.len() - 1;
        }
        self.library = library;
    }

    /// The screen that is shown.
    pub fn screen(&self) -> (screen: Screen)
        ensures
            screen == self@.screen,
    {
        if self.session.clock().state().phase == Phase::Idle {
            self.menu
        } else {
            Screen::Timer
        }
    }

    /// The configuration chosen so far.
    pub fn config(&self) -> (config: Configuration)
        ensures
            config@ == self@.config,
    {
        self.config
    }

    /// The entry of the track library under the cursor.
    pub fn track_cursor(&self) -> (track: usize)
        ensures
            track == self@.track_cursor,
            track < self@.library.len(),
    {
        proof {
            use_type_invariant(self);
        }
        self.track_cursor
    }

    /// The input line of the import screen.
    pub fn input(&self) -> (input: String)
        ensures
            input@ == self@.input,
    {
        self.input.clone()
    }

    /// The row of the settings screen under the cursor.
    pub fn settings_row(&self) -> (row: SettingsRow)
        ensures
            row == self@.settings_row,
    {
        self.settings_row
    }

    /// The colour scheme.
    pub fn theme(&self) -> (theme: Theme)
        ensures
            theme == self@.theme,
    {
        self.theme
    }

    /// The session as it stands.
    pub fn session(&self) -> (session: FocusSession)
        ensures
            session@ == self@.session,
    {
        self.session
    }

    /// The track library as it stands.
    pub fn library(&self) -> (library: &TrackLibrary)
        ensures
            library@ == self@.library,
    {
        &self.library
    }
}

/// A key press leads from a well-formed wizard to a well-formed wizard,
/// whatever the import task's state, and so do a tick and a rescan.
pub proof fn lemma_wizard_stays_wf(
    w: WizardView,
    key: Key,
    import: ImportView,
    library: Seq<Seq<char>>,
)
    requires
        w.wf(),
        listing_wf(library),
    ensures
        w.step(key, import).wizard.wf(),
        w.ticked().wf(),
        w.rescanned(library).wf(),
{
}

/// Going on from the tracks screen begins the run with what was chosen: the
/// clock takes the configuration and times a whole work session of it,
/// running, and the timer is on the screen.
pub proof fn lemma_run_begins_as_configured(w: WizardView, key: Key, import: ImportView)
    requires
        w.wf(),
        w.screen == Screen::Tracks,
        import.status == ImportStatus::Idle,
        goes_on(key),
    ensures
        ({
            let after = w.step(key, import).wizard;
            &&& after.screen == Screen::Timer
            &&& after.session.clock.config == w.config
            &&& after.session.clock.phase == Phase::Working
            &&& after.session.clock.remaining_seconds == w.config.work_minutes * 60
            &&& !after.session.clock.paused
            &&& !after.session.audio.playing
        }),
{
}

/// While an import is pending, no key changes anything but the screen and
/// the import itself: the configuration, the session and the library are
/// left alone.
pub proof fn lemma_pending_import_takes_the_keys(w: WizardView, key: Key, import: ImportView)
    requires
        import.status != ImportStatus::Idle,
    ensures
        w.step(key, import).wizard.config == w.config,
        w.step(key, import).wizard.session == w.session,
        w.step(key, import).wizard.library == w.library,
        w.step(key, import).wizard.input == w.input,
        import.status == ImportStatus::Running ==> w.step(key, import) == w.stay(import),
{
}

/// No key starts a second import while one is running, and a key starts an
/// import only from the import screen, by Enter.
pub proof fn lemma_import_starts_only_from_the_import_screen(
    w: WizardView,
    key: Key,
    import: ImportView,
)
    requires
        w.step(key, import).effect is Import,
    ensures
        import.status == ImportStatus::Idle,
        w.screen == Screen::TrackImport,
        key == Key::Enter,
        w.step(key, import).import.status == ImportStatus::Running,
{
}

} // verus!
