use taped::track::TrackInfo;
use taped::watchdog::{owner_change, OwnerChange, Reaction, Watchdog, Wrapup};

fn song(id: &str, title: &str) -> TrackInfo {
    TrackInfo {
        track_id: id.to_string(),
        title: Some(title.to_string()),
        ..Default::default()
    }
}

fn started(r: &Reaction) -> Option<String> {
    r.start.as_ref().and_then(|t| t.title.clone())
}

#[test]
fn first_track_is_never_captured_and_later_tracks_are() {
    let mut w = Watchdog::new();
    assert_eq!(w.playback_status, "Unknown");
    let r = w.handle_metadata_update(song("track1", "Song 1"));
    assert_eq!(r.wrapup, Wrapup::Continue);
    assert!(r.start.is_none());
    let r = w.handle_playback_status("Playing", Some(song("track1", "Song 1")));
    assert!(r.start.is_none(), "still waiting for the next track");

    let r = w.handle_metadata_update(song("track2", "Song 2"));
    assert_eq!(r.wrapup, Wrapup::Continue);
    assert_eq!(started(&r), Some("Song 2".to_string()));

    let r = w.handle_metadata_update(song("track3", "Song 3"));
    assert_eq!(r.wrapup, Wrapup::Export);
    assert_eq!(started(&r), Some("Song 3".to_string()));

    let r = w.handle_metadata_update(song("track4", "Song 4"));
    assert_eq!(r.wrapup, Wrapup::Export);
    assert_eq!(started(&r), Some("Song 4".to_string()));
    assert_eq!(w.last_track_id.as_deref(), Some("track4"));
}

#[test]
fn pause_discards_the_capture() {
    let mut w = Watchdog::new();
    w.handle_metadata_update(song("track1", "Initial"));
    w.handle_playback_status("Playing", Some(song("track1", "Initial")));
    let r = w.handle_metadata_update(song("track2", "Song 2"));
    assert_eq!(started(&r), Some("Song 2".to_string()));

    let r = w.handle_playback_status("Paused", Some(song("track2", "Song 2")));
    assert_eq!(r.wrapup, Wrapup::Discard);
    assert!(r.start.is_none());
    assert!(w.current_recording.is_none());
    assert!(w.waiting_for_next_track);

    // Resuming the same track does not restart the capture.
    let r = w.handle_playback_status("Playing", Some(song("track2", "Song 2")));
    assert!(r.start.is_none());
    // The next track is captured again, and nothing is exported for Song 2.
    let r = w.handle_metadata_update(song("track3", "Song 3"));
    assert_eq!(r.wrapup, Wrapup::Continue);
    assert_eq!(started(&r), Some("Song 3".to_string()));
}

#[test]
fn repeated_events_change_nothing() {
    let mut w = Watchdog::new();
    w.handle_metadata_update(song("a", "A"));
    w.handle_playback_status("Playing", None);
    w.handle_metadata_update(song("b", "B"));
    let r = w.handle_metadata_update(song("b", "B again"));
    assert_eq!(r.wrapup, Wrapup::Continue);
    assert!(r.start.is_none());
    assert_eq!(w.current_recording.as_ref().and_then(|t| t.title.clone()), Some("B".to_string()));
    let r = w.handle_playback_status("Playing", Some(song("c", "C")));
    assert_eq!(r.wrapup, Wrapup::Continue);
    assert!(r.start.is_none());
}

#[test]
fn advertisements_are_not_captured() {
    let mut w = Watchdog::new();
    w.handle_metadata_update(song("track1", "One"));
    w.handle_playback_status("Playing", None);
    w.handle_metadata_update(song("track2", "Two"));
    let r = w.handle_metadata_update(song("/com/spotify/ad/c5f532f3598242249e2d4cec0d540851", "Ad"));
    assert_eq!(r.wrapup, Wrapup::Export);
    assert!(r.start.is_none());
    assert!(w.current_recording.is_none());
    let r = w.handle_metadata_update(song("track3", "Three"));
    assert_eq!(r.wrapup, Wrapup::Continue);
    assert_eq!(started(&r), Some("Three".to_string()));
}

#[test]
fn resume_after_track_change_starts_capture_unless_ad() {
    let mut w = Watchdog::new();
    w.handle_metadata_update(song("t1", "One"));
    // Track changes while stopped: the wait ends, nothing starts.
    w.handle_playback_status("Stopped", None);
    let r = w.handle_metadata_update(song("t2", "Two"));
    assert!(r.start.is_none());
    assert!(!w.waiting_for_next_track);
    let r = w.handle_playback_status("Playing", Some(song("spotify:ad:9", "Ad")));
    assert!(r.start.is_none());
    w.handle_playback_status("Paused", None);
    let r = w.handle_metadata_update(song("t3", "Three"));
    assert!(r.start.is_none());
    let r = w.handle_playback_status("Playing", Some(song("t3", "Three")));
    assert_eq!(started(&r), Some("Three".to_string()));
}

#[test]
fn failed_start_and_shutdown() {
    let mut w = Watchdog::new();
    w.handle_metadata_update(song("t1", "One"));
    w.handle_playback_status("Playing", None);
    w.handle_metadata_update(song("t2", "Two"));
    assert!(w.current_recording.is_some());
    w.recording_failed();
    assert!(w.current_recording.is_none());
    let r = w.handle_metadata_update(song("t3", "Three"));
    assert_eq!(r.wrapup, Wrapup::Continue);
    assert_eq!(w.shutdown(), Wrapup::Discard);
    assert_eq!(w.shutdown(), Wrapup::Continue);
}

#[test]
fn owner_changes() {
    let name = "org.mpris.MediaPlayer2.spotify";
    assert_eq!(owner_change(name, name, true), OwnerChange::Restart);
    assert_eq!(owner_change(name, name, false), OwnerChange::Stop);
    assert_eq!(owner_change("org.other", name, true), OwnerChange::Ignore);
    assert_eq!(owner_change("org.other", name, false), OwnerChange::Ignore);
}
