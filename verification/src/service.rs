//! The recorder's control object on the bus (its recording switch, its
//! connection to the player and the song it reports), and the recorder state
//! that obeys the recording switch.

use vstd::prelude::*;
use vstd::string::*;
use crate::text::{opt_view, str_eq, text_or};
use crate::track::{TrackInfo, TrackView};
use crate::watchdog::{quiet, playing, Reaction, ReactionView, Wrapup};

verus! {

/// Whether the player is on the bus.
#[derive(Clone, Copy, Debug, PartialEq, Eq, Structural)]
pub enum ConnectionStatus {
    Disconnected,
    Connected,
}

/// The properties that the recorder publishes on the bus.
#[derive(Debug)]
pub struct ServiceControl {
    pub recording_enabled: bool,
    pub connection_status: ConnectionStatus,
    pub current_track: Option<TrackInfo>,
}

/// The view of an optional track.
pub open spec fn opt_track(t: Option<TrackInfo>) -> Option<TrackView> {
    match t {
        Some(t) => Some(t@),
        None => None,
    }
}

/// Which change notifications are owed after a connection update.
#[derive(Clone, Copy, Debug, PartialEq, Eq, Structural)]
pub struct StatusNotices {
    /// The reported song changed.
    pub song_changed: bool,
    /// The connection status changed.
    pub status_changed: bool,
}

/// Equality of two optional texts.
fn same_text(a: &Option<String>, b: &Option<String>) -> (r: bool)
    ensures
        r == (opt_view(*a) == opt_view(*b)),
{
    match (a, b) {
        (Some(x), Some(y)) => str_eq(x.as_str(), y.as_str()),
        (None, None) => true,
        _ => false,
    }
}

/// Equality of two tracks, field by field.
pub fn same_track(a: &TrackInfo, b: &TrackInfo) -> (r: bool)
    ensures
        r == (a@ == b@),
{
    str_eq(a.track_id.as_str(), b.track_id.as_str()) && same_text(&a.title, &b.title)
        && same_text(&a.album, &b.album) && same_text(&a.artist, &b.artist) && same_text(
        &a.album_artist,
        &b.album_artist,
    ) && same_text(&a.art_url, &b.art_url) && a.track_number == b.track_number
        && a.disc_number == b.disc_number
}

/// Equality of two optional tracks.
fn same_opt_track(a: &Option<TrackInfo>, b: &Option<TrackInfo>) -> (r: bool)
    ensures
        r == (opt_track(*a) == opt_track(*b)),
{
    match (a, b) {
        (Some(x), Some(y)) => same_track(x, y),
        (None, None) => true,
        _ => false,
    }
}

/// The reported song: "artist - title" with "Unknown Artist" and "Unknown
/// Title" in place of a missing one, or "None" without a track.
pub open spec fn song_line(t: Option<TrackView>) -> Seq<char> {
    match t {
        Some(t) => text_or(t.artist, "Unknown Artist"@) + " - "@ + text_or(
            t.title,
            "Unknown Title"@,
        ),
        None => "None"@,
    }
}

impl ServiceControl {
    /// A control object with the given switch, not connected, with no song.
    pub fn new(recording_enabled: bool) -> (c: ServiceControl)
        ensures
            c.recording_enabled == recording_enabled,
            c.connection_status == ConnectionStatus::Disconnected,
            c.current_track is None,
    {
        ServiceControl {
            recording_enabled,
            connection_status: ConnectionStatus::Disconnected,
            current_track: None,
        }
    }

    /// The recording switch.
    pub fn recording_enabled(&self) -> (b: bool)
        ensures
            b == self.recording_enabled,
    {
        self.recording_enabled
    }

    /// Sets the recording switch; answers whether it changed, in which case
    /// the change must be announced.
    pub fn set_recording_enabled(&mut self, enabled: bool) -> (changed: bool)
        ensures
            final(self).recording_enabled == enabled,
            final(self).connection_status == old(self).connection_status,
            final(self).current_track == old(self).current_track,
            changed == (old(self).recording_enabled != enabled),
    {
        if self.recording_enabled != enabled {
            self.recording_enabled = enabled;
            true
        } else {
            false
        }
    }

    /// The connection status as published: "Connected" or "Disconnected".
    pub fn connection_status(&self) -> (s: String)
        ensures
            s@ == (if self.connection_status == ConnectionStatus::Connected {
                "Connected"@
            } else {
                "Disconnected"@
            }),
    {
        match self.connection_status {
            ConnectionStatus::Connected => String::from_str("Connected"),
            ConnectionStatus::Disconnected => String::from_str("Disconnected"),
        }
    }

    /// The song as published (see `song_line`).
    pub fn current_song(&self) -> (s: String)
        ensures
            s@ == song_line(opt_track(self.current_track)),
    {
        match &self.current_track {
            Some(t) => {
                let mut s = String::from_str(
                    match &t.artist {
                        Some(a) => a.as_str(),
                        None => "Unknown Artist",
                    },
                );
                s.append(" - ");
                s.append(
                    match &t.title {
                        Some(a) => a.as_str(),
                        None => "Unknown Title",
                    },
                );
                s
            },
            None => String::from_str("None"),
        }
    }

    /// Records the connection status. A change is owed a notice; losing the
    /// player also forgets the song, which is owed a notice too.
    pub fn update_connection_status(&mut self, status: ConnectionStatus) -> (n: StatusNotices)
        ensures
            final(self).recording_enabled == old(self).recording_enabled,
            final(self).connection_status == status,
            old(self).connection_status == status ==> {
                &&& opt_track(final(self).current_track) == opt_track(old(self).current_track)
                &&& n == StatusNotices { song_changed: false, status_changed: false }
            },
            old(self).connection_status != status ==> {
                &&& n.status_changed
                &&& n.song_changed == (status == ConnectionStatus::Disconnected)
                &&& opt_track(final(self).current_track) == (if status
                    == ConnectionStatus::Disconnected {
                    None
                } else {
                    opt_track(old(self).current_track)
                })
            },
    {
        if self.connection_status != status {
            self.connection_status = status;
            let mut song_changed = false;
            if status == ConnectionStatus::Disconnected {
                self.current_track = None;
                song_changed = true;
            }
            StatusNotices { song_changed, status_changed: true }
        } else {
            StatusNotices { song_changed: false, status_changed: false }
        }
    }

    /// Records the song being played; answers whether it changed, in which
    /// case the change must be announced.
    pub fn update_current_track(&mut self, track: Option<TrackInfo>) -> (changed: bool)
        ensures
            final(self).recording_enabled == old(self).recording_enabled,
            final(self).connection_status == old(self).connection_status,
            opt_track(final(self).current_track) == opt_track(track),
            changed == (opt_track(old(self).current_track) != opt_track(track)),
    {
        if !same_opt_track(&self.current_track, &track) {
            self.current_track = track;
            true
        } else {
            false
        }
    }
}

/// The recorder state that obeys the recording switch.
#[derive(Debug)]
pub struct Watchdog {
    /// The track whose capture is in progress.
    pub current_recording: Option<TrackInfo>,
    /// The recording switch.
    pub recording_enabled: bool,
    /// No capture starts before the next change of track.
    pub waiting_for_next_track: bool,
    /// The player's playback status.
    pub playback_status: String,
}

/// The switch-obeying recorder state as mathematical values.
pub struct SwitchedView {
    pub current: Option<TrackView>,
    pub enabled: bool,
    pub waiting: bool,
    pub status: Seq<char>,
}

impl View for Watchdog {
    type V = SwitchedView;

    open spec fn view(&self) -> SwitchedView {
        SwitchedView {
            current: opt_track(self.current_recording),
            enabled: self.recording_enabled,
            waiting: self.waiting_for_next_track,
            status: self.playback_status@,
        }
    }
}

/// The state and reaction after the player announces `t`.
///
/// Nothing happens when `t` has the id of the track being captured.
/// Otherwise the capture in progress is exported. With recording on, a
/// pending wait ends here without a capture; else a capture of `t` starts
/// when the player is playing.
pub open spec fn switched_metadata_step(s: SwitchedView, t: TrackView) -> (
    SwitchedView,
    ReactionView,
) {
    if s.current matches Some(c) && c.track_id == t.track_id {
        (s, quiet())
    } else {
        let wrapup = if s.current is Some {
            Wrapup::Export
        } else {
            Wrapup::Continue
        };
        if s.enabled && s.waiting {
            (
                SwitchedView { current: None, waiting: false, ..s },
                ReactionView { wrapup, start: None },
            )
        } else if s.enabled && s.status == playing() {
            (SwitchedView { current: Some(t), ..s }, ReactionView { wrapup, start: Some(t) })
        } else {
            (SwitchedView { current: None, ..s }, ReactionView { wrapup, start: None })
        }
    }
}

/// The state and reaction after the player reports playback `status`.
///
/// Nothing happens when the status is unchanged. On "Playing", a capture of
/// `current` starts when none is in progress, recording is on, no wait is
/// pending and `current` is known. On any other status the capture in
/// progress is exported.
pub open spec fn switched_playback_step(
    s: SwitchedView,
    status: Seq<char>,
    current: Option<TrackView>,
) -> (SwitchedView, ReactionView) {
    if s.status == status {
        (s, quiet())
    } else if status == playing() {
        if s.current is None && s.enabled && !s.waiting && current is Some {
            (
                SwitchedView { current, status, ..s },
                ReactionView { wrapup: Wrapup::Continue, start: current },
            )
        } else {
            (SwitchedView { status, ..s }, quiet())
        }
    } else {
        let wrapup = if s.current is Some {
            Wrapup::Export
        } else {
            Wrapup::Continue
        };
        (SwitchedView { current: None, status, ..s }, ReactionView { wrapup, start: None })
    }
}

/// The state after the switch is set to `enabled`, and what becomes of the
/// capture in progress: turning recording off throws it away and cancels any
/// wait; turning it on makes the recorder wait for the next change of track.
pub open spec fn switch_step(s: SwitchedView, enabled: bool) -> (SwitchedView, Wrapup) {
    if s.enabled == enabled {
        (s, Wrapup::Continue)
    } else if !enabled {
        (
            SwitchedView { current: None, enabled, waiting: false, ..s },
            if s.current is Some {
                Wrapup::Discard
            } else {
                Wrapup::Continue
            },
        )
    } else {
        (SwitchedView { enabled, waiting: true, ..s }, Wrapup::Continue)
    }
}

/// The invariant of the switch-obeying recorder: a capture runs only with
/// recording on, while the player plays and no wait is pending.
pub open spec fn switched_inv(s: SwitchedView) -> bool {
    s.current is Some ==> s.enabled && s.status == playing() && !s.waiting
}

impl Watchdog {
    /// A recorder with the given switch, status "Unknown", no capture, and
    /// waiting for the next change of track exactly when recording is on.
    pub fn new(recording_enabled: bool) -> (w: Watchdog)
        ensures
            w@ == (SwitchedView {
                current: None,
                enabled: recording_enabled,
                waiting: recording_enabled,
                status: "Unknown"@,
            }),
    {
        Watchdog {
            current_recording: None,
            recording_enabled,
            waiting_for_next_track: recording_enabled,
            playback_status: String::from_str("Unknown"),
        }
    }

    /// The player announces `track` (see `switched_metadata_step`). A track
    /// with the id of the capture in progress changes nothing and orders
    /// nothing, whatever its other fields.
    pub fn handle_metadata_update(&mut self, track: TrackInfo) -> (r: Reaction)
        ensures
            (final(self)@, r@) == switched_metadata_step(old(self)@, track@),
            old(self)@.current matches Some(c) && c.track_id == track@.track_id ==> {
                &&& final(self)@ == old(self)@
                &&& r.wrapup == Wrapup::Continue
                &&& r.start is None
            },
    {
        if let Some(current) = &self.current_recording {
            if str_eq(current.track_id.as_str(), track.track_id.as_str()) {
                return Reaction { wrapup: Wrapup::Continue, start: None };
            }
        }
        let wrapup = match self.current_recording.take() {
            Some(_) => Wrapup::Export,
            None => Wrapup::Continue,
        };
        if self.recording_enabled {
            if self.waiting_for_next_track {
                self.waiting_for_next_track = false;
                return Reaction { wrapup, start: None };
            }
            proof {
                reveal_strlit("Playing");
            }
            if str_eq(self.playback_status.as_str(), "Playing") {
                self.current_recording = Some(track.clone());
                return Reaction { wrapup, start: Some(track) };
            }
        }
        Reaction { wrapup, start: None }
    }

    /// The player reports playback `status` while on `current_track` (see
    /// `switched_playback_step`).
    pub fn handle_playback_status(&mut self, status: &str, current_track: Option<TrackInfo>) -> (r:
        Reaction)
        ensures
            (final(self)@, r@) == switched_playback_step(
                old(self)@,
                status@,
                opt_track(current_track),
            ),
    {
        if str_eq(self.playback_status.as_str(), status) {
            return Reaction { wrapup: Wrapup::Continue, start: None };
        }
        self.playback_status = String::from_str(status);
        proof {
            reveal_strlit("Playing");
        }
        if str_eq(status, "Playing") {
            if self.current_recording.is_none() && self.recording_enabled
                && !self.waiting_for_next_track {
                if let Some(track) = current_track {
                    self.current_recording = Some(track.clone());
                    return Reaction { wrapup: Wrapup::Continue, start: Some(track) };
                }
            }
            Reaction { wrapup: Wrapup::Continue, start: None }
        } else {
            let wrapup = match self.current_recording.take() {
                Some(_) => Wrapup::Export,
                None => Wrapup::Continue,
            };
            Reaction { wrapup, start: None }
        }
    }

    /// Sets the recording switch (see `switch_step`).
    pub fn set_recording_enabled(&mut self, enabled: bool) -> (w: Wrapup)
        ensures
            (final(self)@, w) == switch_step(old(self)@, enabled),
    {
        if self.recording_enabled != enabled {
            self.recording_enabled = enabled;
            if !enabled {
                let w = match self.current_recording.take() {
                    Some(_) => Wrapup::Discard,
                    None => Wrapup::Continue,
                };
                self.waiting_for_next_track = false;
                w
            } else {
                self.waiting_for_next_track = true;
                Wrapup::Continue
            }
        } else {
            Wrapup::Continue
        }
    }

    /// The capture ordered last could not be started: none is in progress.
    pub fn recording_failed(&mut self)
        ensures
            final(self)@ == (SwitchedView { current: None, ..old(self)@ }),
    {
        self.current_recording = None;
    }
}

/// Every event keeps the invariant of the switch-obeying recorder.
pub proof fn switched_events_keep_invariant(
    s: SwitchedView,
    t: TrackView,
    status: Seq<char>,
    current: Option<TrackView>,
    enabled: bool,
)
    requires
        switched_inv(s),
    ensures
        switched_inv(switched_metadata_step(s, t).0),
        switched_inv(switched_playback_step(s, status, current).0),
        switched_inv(switch_step(s, enabled).0),
        switched_inv(SwitchedView { current: None, ..s }),
{
}

/// At most one capture runs at a time in the switch-obeying recorder, and
/// only a capture in progress is ever wrapped up.
pub proof fn switched_one_capture_at_a_time(
    s: SwitchedView,
    t: TrackView,
    status: Seq<char>,
    current: Option<TrackView>,
    enabled: bool,
)
    ensures
        switched_metadata_step(s, t).1.start is Some && s.current is Some
            ==> switched_metadata_step(s, t).1.wrapup == Wrapup::Export,
        switched_playback_step(s, status, current).1.start is Some ==> s.current is None,
        switched_metadata_step(s, t).1.wrapup != Wrapup::Continue ==> s.current is Some,
        switched_playback_step(s, status, current).1.wrapup != Wrapup::Continue
            ==> s.current is Some,
        switch_step(s, enabled).1 != Wrapup::Continue ==> s.current is Some,
{
}

/// A track announced with the id of the capture in progress changes
/// nothing and orders nothing, whatever its other fields; a track with
/// another id ends the capture in progress by exporting it.
pub proof fn switched_same_id_is_quiet(s: SwitchedView, t: TrackView)
    ensures
        s.current matches Some(c) && c.track_id == t.track_id ==> switched_metadata_step(s, t).0
            == s && switched_metadata_step(s, t).1.wrapup == Wrapup::Continue
            && switched_metadata_step(s, t).1.start is None,
        s.current matches Some(c) && c.track_id != t.track_id ==> switched_metadata_step(
            s,
            t,
        ).1.wrapup == Wrapup::Export,
{
}

/// A capture is only ever ordered for the track that the event names: the
/// announced track, or the player's current track on resuming.
pub proof fn switched_captures_the_named_track(
    s: SwitchedView,
    t: TrackView,
    status: Seq<char>,
    current: Option<TrackView>,
)
    ensures
        switched_metadata_step(s, t).1.start matches Some(u) ==> u == t
            && switched_metadata_step(s, t).0.current == Some(t),
        switched_playback_step(s, status, current).1.start matches Some(u) ==> Some(u) == current
            && switched_playback_step(s, status, current).0.current == current,
{
}

/// With recording off, nothing is ever captured.
pub proof fn switched_off_captures_nothing(
    s: SwitchedView,
    t: TrackView,
    status: Seq<char>,
    current: Option<TrackView>,
)
    requires
        !s.enabled,
    ensures
        switched_metadata_step(s, t).1.start is None,
        switched_playback_step(s, status, current).1.start is None,
{
}

/// Turning recording off throws the capture in progress away and never
/// exports it; afterwards no capture runs.
pub proof fn switching_off_discards(s: SwitchedView)
    requires
        s.enabled,
    ensures
        switch_step(s, false).1 != Wrapup::Export,
        switch_step(s, false).1 == Wrapup::Discard <==> s.current is Some,
        switch_step(s, false).0.current is None,
{
}

/// After recording is turned on, the next track announced is not captured.
pub proof fn switching_on_skips_next_track(s: SwitchedView, t: TrackView)
    requires
        !s.enabled,
    ensures
        switched_metadata_step(switch_step(s, true).0, t).1.start is None,
{
}

} // verus!
