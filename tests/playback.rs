use sampleshare::model::SessionError;
use sampleshare::playback::{PlaybackController, SlotCommand, resolve_track};

#[test]
fn second_play_supersedes_first() {
    let mut c = PlaybackController::new();
    let first = c.install("a.mp3".to_string());
    assert_eq!(first, vec![SlotCommand::Start(0)]);
    let second = c.install("b.mp3".to_string());
    assert_eq!(second, vec![SlotCommand::Pause(0), SlotCommand::Cancel(0), SlotCommand::Start(1)]);
    assert_eq!(c.current_title(), Some("b.mp3".to_string()));
    assert!(c.is_current(1));
    assert!(!c.is_current(0));
}

#[test]
fn pause_resume_without_slot_do_nothing() {
    let mut c = PlaybackController::new();
    assert_eq!(c.pause(), None);
    assert_eq!(c.resume(), None);
    assert_eq!(c.volume_target(), None);
    assert_eq!(c.current_title(), None);
}

#[test]
fn pause_and_resume_current_slot() {
    let mut c = PlaybackController::new();
    c.install("a.wav".to_string());
    assert_eq!(c.pause(), Some(SlotCommand::Pause(0)));
    assert!(c.current.unwrap().paused);
    assert_eq!(c.resume(), Some(SlotCommand::Resume(0)));
    assert!(!c.current.unwrap().paused);
    assert_eq!(c.volume_target(), Some(0));
    assert_eq!(c.current_title(), Some("a.wav".to_string()));
}

#[test]
fn play_needs_directory() {
    assert_eq!(resolve_track(&None, "a.mp3").unwrap_err(), SessionError::NoDirectory);
    assert_eq!(resolve_track(&Some("/music".to_string()), "a.mp3").unwrap(), "/music/a.mp3");
}
