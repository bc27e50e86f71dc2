//! The audio player's bookkeeping: which track is selected, at what volume,
//! and whether a playback resource is live. The player decides; whoever owns
//! the device carries the decisions out and reports whether opening worked.

use vstd::prelude::*;
use crate::config::clamped;
use crate::library::{track_path, TrackId, TrackLibrary};

verus! {

/// The loudest volume, in percent.
pub const MAX_VOLUME: u8 = 100;

/// The volume of a new player, in percent.
pub const DEFAULT_VOLUME: u8 = 50;

/// What has to be done to the live playback resource.
#[derive(Clone, Copy, Debug, PartialEq, Eq, Structural)]
pub enum AudioAction {
    /// Nothing: there is no live resource, or nothing changed for it.
    Nothing,
    /// Set its volume to this many percent.
    ApplyVolume(u8),
    /// Pause it.
    Pause,
    /// Resume it.
    Resume,
    /// Stop it and release the device.
    Release,
}

/// The mathematical content of an [`AudioPlayer`].
pub struct AudioView {
    pub selected_track: Option<nat>,
    pub volume: nat,
    pub playing: bool,
    pub paused: bool,
}

impl AudioView {
    /// The volume is a percentage, and only a selected track can be playing.
    pub open spec fn wf(self) -> bool {
        &&& self.volume <= MAX_VOLUME
        &&& self.playing ==> self.selected_track.is_some()
    }

    /// A new player: nothing selected, nothing playing, at the default volume.
    pub open spec fn initial() -> AudioView {
        AudioView {
            selected_track: None,
            volume: DEFAULT_VOLUME as nat,
            playing: false,
            paused: false,
        }
    }

    /// The state after `play(track, library, paused)`: whatever was live has
    /// been released; the track is selected if the library has such a track.
    pub open spec fn play_requested(self, entries: Seq<Seq<char>>, track: nat, paused: bool) -> AudioView {
        AudioView {
            selected_track: if track_path(entries, track as int).is_some() {
                Some(track)
            } else {
                None
            },
            playing: false,
            paused,
            ..self
        }
    }

    /// What `play(track, library, paused)` asks to be opened: the track's
    /// file at the current volume, if the library has such a track.
    pub open spec fn play_request(self, entries: Seq<Seq<char>>, track: nat, paused: bool) -> Option<
        PlayRequestView,
    > {
        match track_path(entries, track as int) {
            Some(path) => Some(PlayRequestView { path, volume: self.volume, paused }),
            None => None,
        }
    }

    /// What `set_volume(percent)` asks to be done to the live resource.
    pub open spec fn volume_action(self, percent: int) -> AudioAction {
        if self.playing {
            AudioAction::ApplyVolume(clamped(percent, 0, 100) as u8)
        } else {
            AudioAction::Nothing
        }
    }

    /// What `set_paused(paused)` asks to be done to the live resource.
    pub open spec fn pause_action(self, paused: bool) -> AudioAction {
        if !self.playing {
            AudioAction::Nothing
        } else if paused {
            AudioAction::Pause
        } else {
            AudioAction::Resume
        }
    }

    /// The state after `opened(success)`: the track plays if and only if it
    /// was opened and a track is selected.
    pub open spec fn open_reported(self, success: bool) -> AudioView {
        AudioView { playing: success && self.selected_track.is_some(), ..self }
    }

    /// The state after `set_volume(percent)`.
    pub open spec fn volume_set(self, percent: int) -> AudioView {
        AudioView { volume: clamped(percent, 0, 100) as nat, ..self }
    }

    /// The state after `set_paused(paused)`.
    pub open spec fn pause_set(self, paused: bool) -> AudioView {
        AudioView { paused, ..self }
    }

    /// The state after `stop()`.
    pub open spec fn stopped(self) -> AudioView {
        AudioView { playing: false, ..self }
    }
}

/// What has to be opened to play a track: the file, as a looping source at
/// this volume, paused from the beginning or not.
#[derive(Debug, PartialEq, Eq)]
pub struct PlayRequest {
    pub path: String,
    pub volume: u8,
    pub paused: bool,
}

/// The mathematical content of a [`PlayRequest`].
pub struct PlayRequestView {
    pub path: Seq<char>,
    pub volume: nat,
    pub paused: bool,
}

impl View for PlayRequest {
    type V = PlayRequestView;

    open spec fn view(&self) -> PlayRequestView {
        PlayRequestView { path: self.path@, volume: self.volume as nat, paused: self.paused }
    }
}

/// The content of an optional request.
pub open spec fn request_view(request: Option<PlayRequest>) -> Option<PlayRequestView> {
    match request {
        Some(r) => Some(r@),
        None => None,
    }
}

/// The audio player's state.
#[derive(Clone, Copy, Debug, PartialEq, Eq)]
pub struct AudioPlayer {
    selected_track: Option<TrackId>,
    volume: u8,
    playing: bool,
    paused: bool,
}

impl View for AudioPlayer {
    type V = AudioView;

    closed spec fn view(&self) -> AudioView {
        AudioView {
            selected_track: match self.selected_track {
                Some(track) => Some(track as nat),
                None => None,
            },
            volume: self.volume as nat,
            playing: self.playing,
            paused: self.paused,
        }
    }
}

impl AudioPlayer {
    /// Every value of this type has a well-formed view.
    #[verifier::type_invariant]
    pub open spec fn inv(self) -> bool {
        self@.wf()
    }

    /// A player with nothing selected and nothing playing.
    pub fn new() -> (player: AudioPlayer)
        ensures
            player@ == AudioView::initial(),
    {
        AudioPlayer { selected_track: None, volume: DEFAULT_VOLUME, playing: false, paused: false }
    }

    /// Asks for a track to be played. Whatever is live has to be released
    /// first, in every case. If `track` is a track of the library, it becomes
    /// the selection and the result says what to open; for the silent entry
    /// or an index past the end nothing is selected and nothing is to be
    /// opened. Nothing plays until `opened` reports that opening worked.
    pub fn play(&mut self, track: TrackId, library: &TrackLibrary, paused: bool) -> (request: Option<
        PlayRequest,
    >)
        ensures
            final(self)@ == old(self)@.play_requested(library@, track as nat, paused),
            !final(self)@.playing,
            request_view(request) == old(self)@.play_request(library@, track as nat, paused),
    {
        proof {
            use_type_invariant(&*self);
        }
        let volume: u8 = self.volume;
        match library.path(track) {
            Some(path) => {
                *self = AudioPlayer { selected_track: Some(track), volume, playing: false, paused };
                Some(PlayRequest { path, volume, paused })
            },
            None => {
                *self = AudioPlayer { selected_track: None, volume, playing: false, paused };
                None
            },
        }
    }

    /// Records whether the requested track could be opened. A track that
    /// could not be opened does not play, and that is no error.
    pub fn opened(&mut self, success: bool)
        ensures
            final(self)@ == old(self)@.open_reported(success),
            !success ==> !final(self)@.playing,
    {
        proof {
            use_type_invariant(&*self);
        }
        let playing: bool = success && self.selected_track.is_some();
        self.playing = playing;
    }

    /// Sets the volume to `percent`, clamped to 0..=100. The result says what
    /// to do to the live resource: apply the new volume if a track plays.
    pub fn set_volume(&mut self, percent: i32) -> (action: AudioAction)
        ensures
            final(self)@ == old(self)@.volume_set(percent as int),
            final(self)@.volume == clamped(percent as int, 0, 100),
            action == old(self)@.volume_action(percent as int),
    {
        proof {
            use_type_invariant(&*self);
        }
        let volume: u8 = if percent < 0 {
            0
        } else if percent > 100 {
            MAX_VOLUME
        } else {
            percent as u8
        };
        self.volume = volume;
        if self.playing {
            AudioAction::ApplyVolume(volume)
        } else {
            AudioAction::Nothing
        }
    }

    /// Changes the volume by `delta` percent, clamped to 0..=100.
    pub fn adjust_volume(&mut self, delta: i32) -> (action: AudioAction)
        ensures
            final(self)@ == old(self)@.volume_set(old(self)@.volume + delta),
            action == old(self)@.volume_action(old(self)@.volume + delta),
    {
        proof {
            use_type_invariant(&*self);
        }
        let current: i32 = self.volume as i32;
        let step: i32 = if delta > 100 {
            100
        } else if delta < -100 {
            -100
        } else {
            delta
        };
        self.set_volume(current + step)
    }

    /// Pauses or resumes. The result says what to do to the live resource,
    /// if a track plays.
    pub fn set_paused(&mut self, paused: bool) -> (action: AudioAction)
        ensures
            final(self)@ == old(self)@.pause_set(paused),
            action == old(self)@.pause_action(paused),
    {
        proof {
            use_type_invariant(&*self);
        }
        self.paused = paused;
        if !self.playing {
            AudioAction::Nothing
        } else if paused {
            AudioAction::Pause
        } else {
            AudioAction::Resume
        }
    }

    /// Stops playing. The live resource has to be released, whether or not
    /// the player believes that one is live.
    pub fn stop(&mut self) -> (action: AudioAction)
        ensures
            final(self)@ == old(self)@.stopped(),
            !final(self)@.playing,
            action == AudioAction::Release,
    {
        proof {
            use_type_invariant(&*self);
        }
        self.playing = false;
        AudioAction::Release
    }

    /// The selected track, if any.
    pub fn selected_track(&self) -> (track: Option<TrackId>)
        ensures
            match track {
                Some(t) => self@.selected_track == Some(t as nat),
                None => self@.selected_track.is_none(),
            },
    {
        self.selected_track
    }

    /// The volume, in percent.
    pub fn volume(&self) -> (percent: u8)
        ensures
            percent == self@.volume,
            percent <= 100,
    {
        proof {
            use_type_invariant(self);
        }
        self.volume
    }

    /// Whether a track plays.
    pub fn playing(&self) -> (playing: bool)
        ensures
            playing == self@.playing,
    {
        self.playing
    }

    /// Whether playback is paused.
    pub fn paused(&self) -> (paused: bool)
        ensures
            paused == self@.paused,
    {
        self.paused
    }
}

/// Whatever volume is asked for, the volume that results is a percentage:
/// the value itself within 0..=100, 0 below and 100 above.
pub proof fn lemma_volume_is_clamped(a: AudioView, percent: int)
    ensures
        a.volume_set(percent).volume <= 100,
        percent <= 0 ==> a.volume_set(percent).volume == 0,
        percent >= 100 ==> a.volume_set(percent).volume == 100,
        0 <= percent <= 100 ==> a.volume_set(percent).volume == percent,
{
}

/// Nothing plays after a request for a track that the library does not
/// have, whatever is reported of the opening; and nothing plays after an
/// opening that failed.
pub proof fn lemma_missing_track_does_not_play(
    a: AudioView,
    entries: Seq<Seq<char>>,
    track: nat,
    paused: bool,
    success: bool,
)
    ensures
        !a.play_requested(entries, track, paused).playing,
        a.play_request(entries, track, paused).is_none() ==> !a.play_requested(
            entries,
            track,
            paused,
        ).open_reported(success).playing,
        !a.open_reported(false).playing,
{
}

/// Every operation of the player leads from a well-formed state to a
/// well-formed state.
pub proof fn lemma_player_stays_wf(
    a: AudioView,
    entries: Seq<Seq<char>>,
    track: nat,
    paused: bool,
    success: bool,
    percent: int,
)
    requires
        a.wf(),
    ensures
        AudioView::initial().wf(),
        a.play_requested(entries, track, paused).wf(),
        a.open_reported(success).wf(),
        a.volume_set(percent).wf(),
        a.pause_set(paused).wf(),
        a.stopped().wf(),
{
}

} // verus!
