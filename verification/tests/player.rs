use media_core::errors::AudioError;
use media_core::errors::PlaybackError;
use media_core::errors::PlaylistError;
use media_core::player::AudioPlayer;
use media_core::player::BackendOutcome;
use media_core::playlist::select_track;
use media_core::playlist::Playlist;

#[test]
fn new_player_is_idle() {
    let p = AudioPlayer::new();
    let st = p.status();
    assert!(!st.is_playing);
    assert!(!st.is_paused);
    assert_eq!(st.current_path, None);
}

#[test]
fn successful_play_records_path_and_plays() {
    let mut p = AudioPlayer::new();
    let r = p.play("a.mp3".to_string(), BackendOutcome::SourceReady);
    assert_eq!(r, Ok(()));
    let st = p.status();
    assert!(st.is_playing);
    assert!(!st.is_paused);
    assert_eq!(st.current_path, Some("a.mp3".to_string()));
    assert_eq!(p.get_current_path(), Some("a.mp3".to_string()));
}

#[test]
fn failed_open_reports_path_and_leaves_idle() {
    let mut p = AudioPlayer::new();
    p.play("a.mp3".to_string(), BackendOutcome::SourceReady).unwrap();
    let r = p.play("missing.mp3".to_string(), BackendOutcome::OpenRefused);
    assert_eq!(r, Err(AudioError::OpenFailed("missing.mp3".to_string())));
    let st = p.status();
    assert!(!st.is_playing);
    assert!(!st.is_paused);
    assert_eq!(st.current_path, None);
}

#[test]
fn failed_decode_reports_path_and_leaves_idle() {
    let mut p = AudioPlayer::new();
    let r = p.play("noise.bin".to_string(), BackendOutcome::DecodeRefused);
    assert_eq!(r, Err(AudioError::DecodeFailed("noise.bin".to_string())));
    assert_eq!(p.get_current_path(), None);
}

#[test]
fn failed_sink_creation_leaves_idle() {
    let mut p = AudioPlayer::new();
    let r = p.play("a.mp3".to_string(), BackendOutcome::SinkRefused);
    assert_eq!(r, Err(AudioError::SinkCreationFailed));
    assert_eq!(p.get_current_path(), None);
}

#[test]
fn second_play_wins_and_replaces_the_first() {
    let mut p = AudioPlayer::new();
    p.play("a.mp3".to_string(), BackendOutcome::SourceReady).unwrap();
    p.play("b.mp3".to_string(), BackendOutcome::SourceReady).unwrap();
    let st = p.status();
    assert_eq!(st.current_path, Some("b.mp3".to_string()));
    assert!(st.is_playing);
}

#[test]
fn pause_when_idle_is_refused_and_changes_nothing() {
    let mut p = AudioPlayer::new();
    let before = p.status();
    assert_eq!(p.pause(), Err(PlaybackError::NotPlaying));
    let after = p.status();
    assert_eq!(before, after);
    assert!(!after.is_playing);
    assert!(!after.is_paused);
}

#[test]
fn resume_when_idle_is_refused_and_changes_nothing() {
    let mut p = AudioPlayer::new();
    assert_eq!(p.resume(), Err(PlaybackError::NotPaused));
    let st = p.status();
    assert!(!st.is_playing);
    assert!(!st.is_paused);
    assert_eq!(st.current_path, None);
}

#[test]
fn pause_and_resume_keep_the_sink_and_path() {
    let mut p = AudioPlayer::new();
    p.play("a.mp3".to_string(), BackendOutcome::SourceReady).unwrap();
    assert_eq!(p.pause(), Ok(()));
    let st = p.status();
    assert!(st.is_paused);
    assert!(!st.is_playing);
    assert_eq!(st.current_path, Some("a.mp3".to_string()));
    assert_eq!(p.resume(), Ok(()));
    let st2 = p.status();
    assert!(st2.is_playing);
    assert!(!st2.is_paused);
    assert_eq!(st2.current_path, Some("a.mp3".to_string()));
}

#[test]
fn resume_while_playing_is_a_harmless_no_op() {
    let mut p = AudioPlayer::new();
    p.play("a.mp3".to_string(), BackendOutcome::SourceReady).unwrap();
    assert_eq!(p.resume(), Ok(()));
    assert!(p.status().is_playing);
}

#[test]
fn stop_twice_never_errors_and_stays_idle() {
    let mut p = AudioPlayer::new();
    p.play("a.mp3".to_string(), BackendOutcome::SourceReady).unwrap();
    assert_eq!(p.stop(), Ok(()));
    let st = p.status();
    assert!(!st.is_playing);
    assert!(!st.is_paused);
    assert_eq!(st.current_path, None);
    assert_eq!(p.stop(), Ok(()));
    let st2 = p.status();
    assert!(!st2.is_playing);
    assert!(!st2.is_paused);
    assert_eq!(st2.current_path, None);
}

#[test]
fn drained_sink_is_no_longer_playing() {
    let mut p = AudioPlayer::new();
    p.play("a.mp3".to_string(), BackendOutcome::SourceReady).unwrap();
    p.observe_sink(false, 0);
    let st = p.status();
    assert!(!st.is_playing);
    assert!(!st.is_paused);
    assert_eq!(st.current_path, Some("a.mp3".to_string()));
}

#[test]
fn observe_sink_when_idle_changes_nothing() {
    let mut p = AudioPlayer::new();
    p.observe_sink(true, 3);
    let st = p.status();
    assert!(!st.is_playing);
    assert!(!st.is_paused);
    assert_eq!(st.current_path, None);
}

#[test]
fn play_by_index_out_of_range_leaves_playback_untouched() {
    let mut pl = Playlist::new();
    pl.add_track("a.mp3".to_string());
    pl.add_track("b.mp3".to_string());
    let mut p = AudioPlayer::new();
    p.play("a.mp3".to_string(), BackendOutcome::SourceReady).unwrap();
    let before = p.status();
    assert_eq!(select_track(&pl, 5), Err(PlaylistError::TrackNotFound));
    let after = p.status();
    assert_eq!(before, after);
}

#[test]
fn play_by_index_resolves_then_plays_that_path() {
    let mut pl = Playlist::new();
    pl.add_track("a.mp3".to_string());
    pl.add_track("/music/b.mp3".to_string());
    let mut p = AudioPlayer::new();
    let track = select_track(&pl, 1).unwrap();
    p.play(track.path.clone(), BackendOutcome::SourceReady).unwrap();
    assert_eq!(p.get_current_path(), Some("/music/b.mp3".to_string()));
}
