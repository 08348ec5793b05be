//! The recorder's decisions as the player changes track and playback state.
//! Each handler takes an event, updates the state and answers what the caller
//! must do: finish the capture in progress (export it or throw it away) and
//! whether to start capturing a track.

use vstd::prelude::*;
use vstd::string::*;
use crate::text::{opt_view, str_eq};
use crate::track::{TrackInfo, TrackView};

verus! {

/// What becomes of the capture in progress.
#[derive(Debug, PartialEq, Eq, Clone, Copy)]
pub enum Wrapup {
    /// Nothing: the capture, if any, goes on.
    Continue,
    /// Stop the capture and hand the file to the exporter.
    Export,
    /// Stop the capture and delete the file.
    Discard,
}

/// The caller's orders after one event: first the wrap-up of the capture in
/// progress, then the start of a new capture, if any.
#[derive(Debug)]
pub struct Reaction {
    pub wrapup: Wrapup,
    pub start: Option<TrackInfo>,
}

/// A reaction as mathematical values.
pub struct ReactionView {
    pub wrapup: Wrapup,
    pub start: Option<TrackView>,
}

impl View for Reaction {
    type V = ReactionView;

    open spec fn view(&self) -> ReactionView {
        ReactionView {
            wrapup: self.wrapup,
            start: match self.start {
                Some(t) => Some(t@),
                None => None,
            },
        }
    }
}

/// The reaction that orders nothing.
pub open spec fn quiet() -> ReactionView {
    ReactionView { wrapup: Wrapup::Continue, start: None }
}

/// The state of the recorder.
#[derive(Debug)]
pub struct Watchdog {
    /// The track whose capture is in progress.
    pub current_recording: Option<TrackInfo>,
    /// No capture starts before the next change of track.
    pub waiting_for_next_track: bool,
    /// The id of the last track announced.
    pub last_track_id: Option<String>,
    /// The player's playback status ("Playing", "Paused", "Stopped", ...).
    pub playback_status: String,
}

/// The recorder's state as mathematical values.
pub struct WatchdogView {
    pub current: Option<TrackView>,
    pub waiting: bool,
    pub last_track_id: Option<Seq<char>>,
    pub status: Seq<char>,
}

impl View for Watchdog {
    type V = WatchdogView;

    open spec fn view(&self) -> WatchdogView {
        WatchdogView {
            current: match self.current_recording {
                Some(t) => Some(t@),
                None => None,
            },
            waiting: self.waiting_for_next_track,
            last_track_id: opt_view(self.last_track_id),
            status: self.playback_status@,
        }
    }
}

/// The playback status under which captures run.
pub open spec fn playing() -> Seq<char> {
    "Playing"@
}

/// The state and reaction after the player announces `t`.
///
/// Nothing happens when `t` has the id of the last track announced. Otherwise
/// `t` becomes the last track. The very first track (none announced before
/// while waiting) only ends the wait at the next change. On a change, the
/// capture in progress is exported; a capture of `t` starts when `t` is no
/// advertisement and the player is playing.
pub open spec fn metadata_step(s: WatchdogView, t: TrackView) -> (WatchdogView, ReactionView) {
    let is_transition = match s.last_track_id {
        Some(id) => id != t.track_id,
        None => true,
    };
    if !is_transition {
        (s, quiet())
    } else if s.waiting && s.last_track_id is None {
        (WatchdogView { last_track_id: Some(t.track_id), ..s }, quiet())
    } else {
        let wrapup = if s.current is Some {
            Wrapup::Export
        } else {
            Wrapup::Continue
        };
        let starts = !t.is_ad() && s.status == playing();
        (
            WatchdogView {
                current: if starts {
                    Some(t)
                } else {
                    None
                },
                waiting: false,
                last_track_id: Some(t.track_id),
                status: s.status,
            },
            ReactionView {
                wrapup,
                start: if starts {
                    Some(t)
                } else {
                    None
                },
            },
        )
    }
}

/// The state and reaction after the player reports playback `status`, with
/// the track it is on, if known.
///
/// Nothing happens when the status is unchanged. Otherwise it is recorded.
/// On "Playing", a capture of `current` starts when none is in progress, the
/// recorder is not waiting for a change of track and `current` is known and no
/// advertisement. On any other status the capture in progress is thrown away
/// and the recorder waits for the next change of track.
pub open spec fn playback_step(
    s: WatchdogView,
    status: Seq<char>,
    current: Option<TrackView>,
) -> (WatchdogView, ReactionView) {
    if s.status == status {
        (s, quiet())
    } else if status == playing() {
        let starts = s.current is None && !s.waiting && current is Some && !current->0.is_ad();
        if starts {
            (
                WatchdogView { current, status, ..s },
                ReactionView { wrapup: Wrapup::Continue, start: current },
            )
        } else {
            (WatchdogView { status, ..s }, quiet())
        }
    } else {
        let wrapup = if s.current is Some {
            Wrapup::Discard
        } else {
            Wrapup::Continue
        };
        (
            WatchdogView { current: None, waiting: true, status, ..s },
            ReactionView { wrapup, start: None },
        )
    }
}

/// The recorder's invariant: a capture runs only while the player plays,
/// outside a wait for the next track, and never for an advertisement.
pub open spec fn watchdog_inv(s: WatchdogView) -> bool {
    s.current is Some ==> {
        &&& s.status == playing()
        &&& !s.waiting
        &&& !s.current->0.is_ad()
    }
}

impl Watchdog {
    /// A recorder that waits for the first change of track, with status
    /// "Unknown" and nothing announced yet.
    pub fn new() -> (w: Watchdog)
        ensures
            w@.current is None,
            w@.waiting,
            w@.last_track_id is None,
            w@.status == "Unknown"@,
    {
        Watchdog {
            current_recording: None,
            waiting_for_next_track: true,
            last_track_id: None,
            playback_status: String::from_str("Unknown"),
        }
    }

    /// The player announces `track` (see `metadata_step`). A track with the
    /// id of the last one announced changes nothing and orders nothing.
    pub fn handle_metadata_update(&mut self, track: TrackInfo) -> (r: Reaction)
        ensures
            (final(self)@, r@) == metadata_step(old(self)@, track@),
            old(self)@.last_track_id == Some(track@.track_id) ==> {
                &&& final(self)@ == old(self)@
                &&& r.wrapup == Wrapup::Continue
                &&& r.start is None
            },
            final(self)@.last_track_id == Some(track@.track_id),
    {
        let is_transition = match &self.last_track_id {
            Some(last_id) => !str_eq(last_id.as_str(), track.track_id.as_str()),
            None => true,
        };
        if !is_transition {
            return Reaction { wrapup: Wrapup::Continue, start: None };
        }
        let old_track_id = self.last_track_id.take();
        self.last_track_id = Some(track.track_id.clone());
        if self.waiting_for_next_track {
            if old_track_id.is_none() {
                return Reaction { wrapup: Wrapup::Continue, start: None };
            } else {
                self.waiting_for_next_track = false;
            }
        }
        let wrapup = match self.current_recording.take() {
            Some(_) => Wrapup::Export,
            None => Wrapup::Continue,
        };
        if track.is_ad() {
            return Reaction { wrapup, start: None };
        }
        proof {
            reveal_strlit("Playing");
        }
        if str_eq(self.playback_status.as_str(), "Playing") {
            self.current_recording = Some(track.clone());
            Reaction { wrapup, start: Some(track) }
        } else {
            Reaction { wrapup, start: None }
        }
    }

    /// The player reports playback `status` while on `current_track` (see
    /// `playback_step`).
    pub fn handle_playback_status(&mut self, status: &str, current_track: Option<TrackInfo>) -> (r:
        Reaction)
        ensures
            (final(self)@, r@) == playback_step(
                old(self)@,
                status@,
                match current_track {
                    Some(t) => Some(t@),
                    None => None,
                },
            ),
    {
        if str_eq(self.playback_status.as_str(), status) {
            return Reaction { wrapup: Wrapup::Continue, start: None };
        }
        self.playback_status = String::from_str(status);
        proof {
            reveal_strlit("Playing");
        }
        if str_eq(status, "Playing") {
            if self.current_recording.is_none() && !self.waiting_for_next_track {
                if let Some(track) = current_track {
                    if !track.is_ad() {
                        self.current_recording = Some(track.clone());
                        return Reaction { wrapup: Wrapup::Continue, start: Some(track) };
                    }
                }
            }
            Reaction { wrapup: Wrapup::Continue, start: None }
        } else {
            let wrapup = match self.current_recording.take() {
                Some(_) => Wrapup::Discard,
                None => Wrapup::Continue,
            };
            self.waiting_for_next_track = true;
            Reaction { wrapup, start: None }
        }
    }

    /// The capture ordered last could not be started: none is in progress.
    pub fn recording_failed(&mut self)
        ensures
            final(self)@ == (WatchdogView { current: None, ..old(self)@ }),
    {
        self.current_recording = None;
    }

    /// The service shuts down: the capture in progress, if any, is thrown away.
    pub fn shutdown(&mut self) -> (w: Wrapup)
        ensures
            final(self)@ == (WatchdogView { current: None, ..old(self)@ }),
            w == (if old(self)@.current is Some {
                Wrapup::Discard
            } else {
                Wrapup::Continue
            }),
    {
        match self.current_recording.take() {
            Some(_) => Wrapup::Discard,
            None => Wrapup::Continue,
        }
    }
}

/// The state of a recorder before any event, whatever status it starts with.
pub open spec fn fresh(status: Seq<char>) -> WatchdogView {
    WatchdogView { current: None, waiting: true, last_track_id: None, status }
}

/// Every event keeps the recorder's invariant: a capture runs only while the
/// player plays, outside a wait, and never for an advertisement.
pub proof fn events_keep_invariant(
    s: WatchdogView,
    t: TrackView,
    status: Seq<char>,
    current: Option<TrackView>,
)
    requires
        watchdog_inv(s),
    ensures
        watchdog_inv(fresh(status)),
        watchdog_inv(metadata_step(s, t).0),
        watchdog_inv(playback_step(s, status, current).0),
        watchdog_inv(WatchdogView { current: None, ..s }),
{
}

/// No capture is ever ordered for an advertisement.
pub proof fn advertisements_are_never_captured(
    s: WatchdogView,
    t: TrackView,
    status: Seq<char>,
    current: Option<TrackView>,
)
    ensures
        metadata_step(s, t).1.start matches Some(u) ==> !u.is_ad(),
        playback_step(s, status, current).1.start matches Some(u) ==> !u.is_ad(),
{
}

/// When the player leaves "Playing", the capture in progress is thrown away,
/// never exported, nothing starts, and the recorder waits for the next track.
pub proof fn leaving_playback_discards(s: WatchdogView, status: Seq<char>, current: Option<
    TrackView,
>)
    requires
        s.status != status,
        status != playing(),
    ensures
        playback_step(s, status, current).1.wrapup != Wrapup::Export,
        playback_step(s, status, current).1.wrapup == Wrapup::Discard <==> s.current is Some,
        playback_step(s, status, current).1.start is None,
        playback_step(s, status, current).0.current is None,
        playback_step(s, status, current).0.waiting,
{
}

/// Announcing the same track again, or reporting the same status again,
/// changes nothing and orders nothing.
pub proof fn repeated_events_are_quiet(
    s: WatchdogView,
    t: TrackView,
    status: Seq<char>,
    current: Option<TrackView>,
    current_again: Option<TrackView>,
)
    ensures
        metadata_step(metadata_step(s, t).0, t) == (metadata_step(s, t).0, quiet()),
        playback_step(playback_step(s, status, current).0, status, current_again) == (
            playback_step(s, status, current).0,
            quiet(),
        ),
{
}

/// The first track announced to a fresh recorder is never captured, and a
/// later change of track ends the wait.
pub proof fn first_track_is_skipped(status: Seq<char>, first: TrackView, second: TrackView)
    requires
        first.track_id != second.track_id,
    ensures
        metadata_step(fresh(status), first).1 == quiet(),
        !metadata_step(metadata_step(fresh(status), first).0, second).0.waiting,
{
}

/// A capture is exported only when the announced track differs from the
/// last one announced.
pub proof fn export_only_on_track_change(s: WatchdogView, t: TrackView)
    ensures
        metadata_step(s, t).1.wrapup == Wrapup::Export ==> s.last_track_id != Some(t.track_id),
        metadata_step(s, t).1.wrapup != Wrapup::Discard,
{
}

/// While the recorder waits for the next change of track, resuming playback
/// starts no capture.
pub proof fn waiting_blocks_capture_on_resume(s: WatchdogView, status: Seq<char>, current: Option<
    TrackView,
>)
    requires
        s.waiting,
    ensures
        playback_step(s, status, current).1.start is None,
{
}

/// At most one capture runs at a time: a capture starts only when none is
/// in progress or the one in progress is wrapped up by the same reaction.
pub proof fn one_capture_at_a_time(
    s: WatchdogView,
    t: TrackView,
    status: Seq<char>,
    current: Option<TrackView>,
)
    ensures
        metadata_step(s, t).1.start is Some && s.current is Some ==> metadata_step(s, t).1.wrapup
            == Wrapup::Export,
        playback_step(s, status, current).1.start is Some ==> s.current is None,
        metadata_step(s, t).1.wrapup != Wrapup::Continue ==> s.current is Some,
        playback_step(s, status, current).1.wrapup != Wrapup::Continue ==> s.current is Some,
{
}

/// A track announced with the id of the last one changes nothing and orders
/// nothing, whatever its other fields; any announcement makes its id the
/// last one.
pub proof fn same_id_is_quiet(s: WatchdogView, t: TrackView)
    ensures
        s.last_track_id == Some(t.track_id) ==> metadata_step(s, t).0 == s && metadata_step(
            s,
            t,
        ).1.wrapup == Wrapup::Continue && metadata_step(s, t).1.start is None,
        metadata_step(s, t).0.last_track_id == Some(t.track_id),
{
}

/// A capture is only ever ordered for the track that the event names: the
/// announced track, or the player's current track on resuming.
pub proof fn captures_the_named_track(
    s: WatchdogView,
    t: TrackView,
    status: Seq<char>,
    current: Option<TrackView>,
)
    ensures
        metadata_step(s, t).1.start matches Some(u) ==> u == t && metadata_step(s, t).0.current
            == Some(t),
        playback_step(s, status, current).1.start matches Some(u) ==> Some(u) == current
            && playback_step(s, status, current).0.current == current,
{
}

/// What to do with the task that follows the player when a bus name changes
/// owner.
#[derive(Debug, PartialEq, Eq, Clone, Copy, Structural)]
pub enum OwnerChange {
    /// The name is not the player's: nothing to do.
    Ignore,
    /// The player appeared: stop the task, if any, and start a new one.
    Restart,
    /// The player disappeared: stop the task, if any.
    Stop,
}

/// The decision for a change of owner of bus name `name`, while following
/// the player at `watched`; `has_new_owner` tells whether the name now has an
/// owner.
pub fn owner_change(name: &str, watched: &str, has_new_owner: bool) -> (c: OwnerChange)
    ensures
        c == (if name@ != watched@ {
            OwnerChange::Ignore
        } else if has_new_owner {
            OwnerChange::Restart
        } else {
            OwnerChange::Stop
        }),
{
    if !str_eq(name, watched) {
        OwnerChange::Ignore
    } else if has_new_owner {
        OwnerChange::Restart
    } else {
        OwnerChange::Stop
    }
}

} // verus!
