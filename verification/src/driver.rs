//! The playback-driving loop's half of the state machine.
//!
//! The embedding shell runs a dedicated loop that, on each iteration, locks
//! the state, asks [`Playlist::driver_step`] what to do, performs the
//! answer against the audio engine, and reports the outcome back through
//! exactly one of the transitions below before releasing the lock.

use vstd::prelude::*;

use crate::playlist::Playlist;
use crate::playlist::PlaylistView;

verus! {

/// What the driving loop must do on one iteration.
#[derive(Debug)]
pub enum DriverAction {
    /// No session is live and this path is selected: ask the engine to open
    /// a streaming session for it, then report back through
    /// [`Playlist::on_stream_opened`] or [`Playlist::on_stream_failed`].
    StartSelected { path: String },
    /// A session is live: read its position from the engine and report it
    /// through [`Playlist::record_position`].
    SamplePosition,
    /// Nothing is selected and no session is live: do nothing.
    Idle,
}

/// The engine opened the selected track and reported this total length:
/// the session is now live and the total is recorded. Nothing else moves.
pub open spec fn spec_stream_opened(v: PlaylistView, duration: u64) -> PlaylistView {
    PlaylistView { session_active: true, current_duration: duration, ..v }
}

/// The engine could not open the selected track: the selection is cleared
/// and the loop goes on. Everything else, the queue above all, stays as it
/// was, so one bad path never poisons the rest of the state.
pub open spec fn spec_stream_failed(v: PlaylistView) -> PlaylistView {
    PlaylistView { playing: None, ..v }
}

/// The engine reported this elapsed position for the live session.
pub open spec fn spec_record_position(v: PlaylistView, position: u64) -> PlaylistView {
    PlaylistView { current_time: position, ..v }
}

impl Playlist {
    /// Decides one iteration of the driving loop: start the selected track
    /// if no session is live yet, sample the position if one is, and stand
    /// idle otherwise. Reads only; the loop reports what happened through
    /// the transitions below.
    pub fn driver_step(&self) -> (a: DriverAction)
        ensures
            (match a {
                DriverAction::StartSelected { path } => {
                    &&& !self@.session_active
                    &&& self@.playing == Some(path@)
                },
                DriverAction::SamplePosition => self@.session_active,
                DriverAction::Idle => !self@.session_active && self@.playing is None,
            }),
    {
        if self.session_active {
            DriverAction::SamplePosition
        } else {
            match &self.playing {
                Some(track) => DriverAction::StartSelected { path: track.path.clone() },
                None => DriverAction::Idle,
            }
        }
    }

    /// Records that the engine opened a stream for the selected track and
    /// reported `duration` as its total length, in milliseconds. Returns
    /// whether the loop must pause the new session at once, which is the
    /// case exactly when a pause was commanded before playback started.
    pub fn on_stream_opened(&mut self, duration: u64) -> (pause_now: bool)
        requires
            !old(self)@.session_active,
            old(self)@.playing is Some,
        ensures
            final(self)@ == spec_stream_opened(old(self)@, duration),
            final(self)@.wf(),
            pause_now == old(self)@.paused,
    {
        let ghost pre = self@;
        self.session_active = true;
        self.current_duration = duration;
        proof {
            assert(self@ =~= spec_stream_opened(pre, duration));
        }
        self.paused
    }

    /// Records that the engine could not open the selected track. The
    /// selection is cleared so the loop does not retry the same bad path
    /// forever; the queue and all other fields are untouched and remain
    /// queryable.
    pub fn on_stream_failed(&mut self)
        requires
            !old(self)@.session_active,
        ensures
            final(self)@ == spec_stream_failed(old(self)@),
            final(self)@.wf(),
    {
        let ghost pre = self@;
        self.playing = None;
        proof {
            assert(self@ =~= spec_stream_failed(pre));
        }
    }

    /// Records the elapsed position, in milliseconds, that the engine
    /// reported for the live session.
    pub fn record_position(&mut self, position: u64)
        requires
            old(self)@.session_active,
        ensures
            final(self)@ == spec_record_position(old(self)@, position),
            old(self)@.wf() ==> final(self)@.wf(),
    {
        let ghost pre = self@;
        self.current_time = position;
        proof {
            assert(self@ =~= spec_record_position(pre, position));
        }
    }
}

} // verus!
