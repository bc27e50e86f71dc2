use focus_timer::library::{has_audio_extension, TrackLibrary};

fn names(list: &[&str]) -> Vec<String> {
    list.iter().map(|s| s.to_string()).collect()
}

#[test]
fn audio_extension_is_recognised_at_the_end_only() {
    assert!(has_audio_extension("rain.mp3"));
    assert!(has_audio_extension(".mp3"));
    assert!(has_audio_extension("雨 🌧.mp3"));
    assert!(!has_audio_extension("mp3"));
    assert!(!has_audio_extension(""));
    assert!(!has_audio_extension("rain.mp3.part"));
    assert!(!has_audio_extension("rain.MP3"));
    assert!(!has_audio_extension("rain.mp4"));
    assert!(!has_audio_extension("rainmp3"));
    assert!(!has_audio_extension("rain.wav"));
}

#[test]
fn new_library_holds_the_silent_entry_alone() {
    let lib = TrackLibrary::new();
    assert_eq!(lib.len(), 1);
    assert_eq!(lib.names(), names(&["None"]));
    assert_eq!(lib.path(0), None);
}

#[test]
fn scan_lists_the_silent_entry_first_and_audio_files_in_order() {
    let lib = TrackLibrary::scan(&names(&[
        "waves.mp3",
        "notes.txt",
        "rain.mp3",
        "cover.png",
        "rain.mp3",
        "None",
    ]));
    assert_eq!(lib.names(), names(&["None", "waves.mp3", "rain.mp3", "rain.mp3"]));
    assert_eq!(lib.len(), 4);
}

#[test]
fn scan_of_an_empty_directory_is_the_new_library() {
    assert_eq!(TrackLibrary::scan(&Vec::new()), TrackLibrary::new());
    assert_eq!(TrackLibrary::scan(&names(&["a.txt", "b"])), TrackLibrary::new());
}

#[test]
fn name_of_an_entry() {
    let lib = TrackLibrary::scan(&names(&["waves.mp3", "rain.mp3"]));
    assert_eq!(lib.name(0), Some("None".to_string()));
    assert_eq!(lib.name(1), Some("waves.mp3".to_string()));
    assert_eq!(lib.name(2), Some("rain.mp3".to_string()));
    assert_eq!(lib.name(3), None);
}

#[test]
fn path_of_a_track_lies_in_the_track_directory() {
    let lib = TrackLibrary::scan(&names(&["waves.mp3", "rain.mp3"]));
    assert_eq!(lib.path(0), None);
    assert_eq!(lib.path(1), Some("./bgm/waves.mp3".to_string()));
    assert_eq!(lib.path(2), Some("./bgm/rain.mp3".to_string()));
    assert_eq!(lib.path(3), None);
    assert_eq!(lib.path(usize::MAX), None);
}

#[test]
fn clone_of_a_library_is_equal_to_it() {
    let lib = TrackLibrary::scan(&names(&["waves.mp3"]));
    assert_eq!(lib.clone(), lib);
}
