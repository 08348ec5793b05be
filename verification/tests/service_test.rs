use taped::track::TrackInfo;
use taped::watchdog::Wrapup;
use taped::{ConnectionStatus, ServiceControl, Watchdog};

fn song(id: &str, title: &str) -> TrackInfo {
    TrackInfo {
        track_id: id.to_string(),
        title: Some(title.to_string()),
        ..Default::default()
    }
}

#[test]
fn control_properties() {
    let mut c = ServiceControl::new(true);
    assert!(c.recording_enabled());
    assert_eq!(c.connection_status(), "Disconnected");
    assert_eq!(c.current_song(), "None");
    assert!(!c.set_recording_enabled(true));
    assert!(c.set_recording_enabled(false));
    assert!(!c.recording_enabled());

    let n = c.update_connection_status(ConnectionStatus::Connected);
    assert!(n.status_changed && !n.song_changed);
    assert_eq!(c.connection_status(), "Connected");
    let n = c.update_connection_status(ConnectionStatus::Connected);
    assert!(!n.status_changed && !n.song_changed);

    assert!(c.update_current_track(Some(song("t", "Title"))));
    assert_eq!(c.current_song(), "Unknown Artist - Title");
    assert!(!c.update_current_track(Some(song("t", "Title"))));
    let mut full = song("t", "Title");
    full.artist = Some("Artist".to_string());
    assert!(c.update_current_track(Some(full)));
    assert_eq!(c.current_song(), "Artist - Title");
    let untitled = TrackInfo { track_id: "u".to_string(), ..Default::default() };
    assert!(c.update_current_track(Some(untitled)));
    assert_eq!(c.current_song(), "Unknown Artist - Unknown Title");

    let n = c.update_connection_status(ConnectionStatus::Disconnected);
    assert!(n.status_changed && n.song_changed);
    assert_eq!(c.current_song(), "None");
    assert!(c.current_track.is_none());
}

#[test]
fn switched_recorder_follows_tracks() {
    let mut w = Watchdog::new(true);
    assert!(w.waiting_for_next_track);
    w.handle_playback_status("Playing", Some(song("t1", "One")));
    let r = w.handle_metadata_update(song("t1", "One"));
    assert!(r.start.is_none(), "the first track ends the wait only");
    let r = w.handle_metadata_update(song("t2", "Two"));
    assert_eq!(r.start.as_ref().map(|t| t.track_id.clone()), Some("t2".to_string()));
    let r = w.handle_metadata_update(song("t2", "Two"));
    assert!(r.start.is_none() && r.wrapup == Wrapup::Continue);
    let r = w.handle_metadata_update(song("t3", "Three"));
    assert_eq!(r.wrapup, Wrapup::Export);
    let r = w.handle_playback_status("Paused", None);
    assert_eq!(r.wrapup, Wrapup::Export);
    assert!(w.current_recording.is_none());
    let r = w.handle_playback_status("Playing", Some(song("t3", "Three")));
    assert_eq!(r.start.as_ref().map(|t| t.track_id.clone()), Some("t3".to_string()));
}

#[test]
fn switching_off_discards_and_on_waits() {
    let mut w = Watchdog::new(false);
    assert!(!w.waiting_for_next_track);
    w.handle_playback_status("Playing", Some(song("t1", "One")));
    let r = w.handle_metadata_update(song("t2", "Two"));
    assert!(r.start.is_none(), "recording is off");

    assert_eq!(w.set_recording_enabled(true), Wrapup::Continue);
    assert!(w.waiting_for_next_track);
    let r = w.handle_metadata_update(song("t3", "Three"));
    assert!(r.start.is_none());
    let r = w.handle_metadata_update(song("t4", "Four"));
    assert!(r.start.is_some());

    assert_eq!(w.set_recording_enabled(false), Wrapup::Discard);
    assert!(w.current_recording.is_none());
    assert!(!w.waiting_for_next_track);
    assert_eq!(w.set_recording_enabled(false), Wrapup::Continue);
    w.recording_failed();
    assert!(w.current_recording.is_none());
}
