use focus_timer::audio::{AudioAction, AudioPlayer, PlayRequest};
use focus_timer::library::TrackLibrary;

fn library() -> TrackLibrary {
    TrackLibrary::scan(&vec!["rain.mp3".to_string(), "notes.txt".to_string(), "waves.mp3".to_string()])
}

#[test]
fn new_player_is_silent_at_half_volume() {
    let player = AudioPlayer::new();
    assert_eq!(player.selected_track(), None);
    assert_eq!(player.volume(), 50);
    assert!(!player.playing());
    assert!(!player.paused());
}

#[test]
fn set_volume_clamps() {
    let mut player = AudioPlayer::new();
    player.set_volume(-30);
    assert_eq!(player.volume(), 0);
    player.set_volume(170);
    assert_eq!(player.volume(), 100);
    player.set_volume(0);
    assert_eq!(player.volume(), 0);
    player.set_volume(100);
    assert_eq!(player.volume(), 100);
    player.set_volume(37);
    assert_eq!(player.volume(), 37);
    player.set_volume(i32::MIN);
    assert_eq!(player.volume(), 0);
    player.set_volume(i32::MAX);
    assert_eq!(player.volume(), 100);
}

#[test]
fn set_volume_clamps_as_a_fraction() {
    let mut player = AudioPlayer::new();
    player.set_volume((-0.3f32 * 100.0).round() as i32);
    assert_eq!(f32::from(player.volume()) / 100.0, 0.0);
    player.set_volume((1.7f32 * 100.0).round() as i32);
    assert_eq!(f32::from(player.volume()) / 100.0, 1.0);
}

#[test]
fn adjust_volume_moves_in_steps_and_clamps() {
    let mut player = AudioPlayer::new();
    assert_eq!(player.adjust_volume(5), AudioAction::Nothing);
    assert_eq!(player.volume(), 55);
    player.adjust_volume(-5);
    player.adjust_volume(-5);
    assert_eq!(player.volume(), 45);
    for _ in 0..20 {
        player.adjust_volume(5);
    }
    assert_eq!(player.volume(), 100);
    for _ in 0..30 {
        player.adjust_volume(-5);
    }
    assert_eq!(player.volume(), 0);
    player.adjust_volume(i32::MAX);
    assert_eq!(player.volume(), 100);
    player.adjust_volume(i32::MIN);
    assert_eq!(player.volume(), 0);
}

#[test]
fn play_asks_for_the_track_at_the_current_volume() {
    let lib = library();
    let mut player = AudioPlayer::new();
    player.set_volume(80);
    let request = player.play(2, &lib, true);
    assert_eq!(
        request,
        Some(PlayRequest { path: "./bgm/waves.mp3".to_string(), volume: 80, paused: true })
    );
    assert_eq!(player.selected_track(), Some(2));
    assert!(!player.playing());
    assert!(player.paused());
    player.opened(true);
    assert!(player.playing());
}

#[test]
fn play_on_a_nonexistent_track_leaves_nothing_playing() {
    let lib = library();
    let mut player = AudioPlayer::new();
    assert_eq!(player.play(3, &lib, false), None);
    assert!(!player.playing());
    assert_eq!(player.selected_track(), None);
    player.opened(true);
    assert!(!player.playing());
    assert_eq!(player.play(usize::MAX, &lib, false), None);
    assert!(!player.playing());
}

#[test]
fn play_on_the_silent_entry_leaves_nothing_playing() {
    let lib = library();
    let mut player = AudioPlayer::new();
    player.play(1, &lib, false);
    player.opened(true);
    assert!(player.playing());
    assert_eq!(player.play(0, &lib, false), None);
    assert!(!player.playing());
    assert_eq!(player.selected_track(), None);
}

#[test]
fn a_track_that_cannot_be_opened_does_not_play() {
    let lib = library();
    let mut player = AudioPlayer::new();
    assert!(player.play(1, &lib, false).is_some());
    player.opened(false);
    assert!(!player.playing());
    assert_eq!(player.selected_track(), Some(1));
    assert_eq!(player.set_volume(10), AudioAction::Nothing);
    assert_eq!(player.set_paused(true), AudioAction::Nothing);
}

#[test]
fn changes_reach_the_live_resource_only_while_playing() {
    let lib = library();
    let mut player = AudioPlayer::new();
    assert_eq!(player.set_volume(70), AudioAction::Nothing);
    assert_eq!(player.set_paused(true), AudioAction::Nothing);
    assert!(player.paused());
    player.play(1, &lib, false);
    player.opened(true);
    assert_eq!(player.set_volume(170), AudioAction::ApplyVolume(100));
    assert_eq!(player.adjust_volume(-5), AudioAction::ApplyVolume(95));
    assert_eq!(player.set_paused(true), AudioAction::Pause);
    assert!(player.paused());
    assert_eq!(player.set_paused(false), AudioAction::Resume);
    assert!(!player.paused());
}

#[test]
fn stop_always_releases() {
    let lib = library();
    let mut player = AudioPlayer::new();
    assert_eq!(player.stop(), AudioAction::Release);
    player.play(1, &lib, false);
    player.opened(true);
    assert_eq!(player.stop(), AudioAction::Release);
    assert!(!player.playing());
    assert_eq!(player.selected_track(), Some(1));
    assert_eq!(player.volume(), 50);
}
