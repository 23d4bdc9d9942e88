//! The shared playback state: the single source of truth that the facade,
//! the playback-driving loop and the command loop all read and mutate.
//!
//! The embedding shell keeps one [`Playlist`] behind one mutual-exclusion
//! lock; every public method here is meant to be called inside one critical
//! section, so each contract speaks of a single atomic transition of the
//! state. The mathematical image of the state is a [`PlaylistView`], and
//! the transitions on it are ordinary spec functions, so that laws about
//! whole call sequences can be stated and proved over views alone.

use vstd::prelude::*;

use crate::track::Track;

verus! {

/// Raw bit pattern of the default gain, a gain of one hundred. The verified
/// core treats a gain as an opaque bit pattern: it stores and returns the
/// caller's bits exactly and never interprets them as a number.
pub const DEFAULT_VOLUME_BITS: u64 = 0x4059000000000000;

/// The mathematical image of a [`Playlist`].
#[verifier::ext_equal]
pub struct PlaylistView {
    /// The queued track paths, in insertion order.
    pub queue: Seq<Seq<char>>,
    /// The path of the track currently selected for playback, if any.
    pub playing: Option<Seq<char>>,
    /// Whether playback is intentionally paused.
    pub paused: bool,
    /// Total length of the active track, in milliseconds.
    pub current_duration: u64,
    /// Elapsed position of the active track, in milliseconds.
    pub current_time: u64,
    /// The current gain, as an opaque bit pattern.
    pub current_volume: u64,
    /// Whether a live engine session exists for the selected track.
    pub session_active: bool,
}

impl PlaylistView {
    /// Well-formedness: a live session exists only for a selected track.
    /// Fresh states satisfy this and every transition preserves it.
    pub open spec fn wf(self) -> bool {
        self.session_active ==> self.playing is Some
    }
}

/// The fresh state: empty queue, nothing selected, not paused, no session,
/// both times zero and the default gain.
pub open spec fn spec_init() -> PlaylistView {
    PlaylistView {
        queue: Seq::empty(),
        playing: None,
        paused: false,
        current_duration: 0,
        current_time: 0,
        current_volume: DEFAULT_VOLUME_BITS,
        session_active: false,
    }
}

/// Appending a track: it joins the end of the queue and becomes the
/// selected track, preempting the previous selection marker. Nothing else
/// changes; in particular an already-live session is not torn down.
pub open spec fn spec_enqueue(v: PlaylistView, path: Seq<char>) -> PlaylistView {
    PlaylistView { queue: v.queue.push(path), playing: Some(path), ..v }
}

/// Setting the gain directly (the path that bypasses the command channel):
/// only the stored gain changes.
pub open spec fn spec_set_vol(v: PlaylistView, vol: u64) -> PlaylistView {
    PlaylistView { current_volume: vol, ..v }
}

/// The shared playback state aggregate. The embedding shell guards one
/// value of this type with one lock; no field is meaningful outside a
/// critical section. `current_duration` and `current_time` carry
/// information only while a session is active.
pub struct Playlist {
    pub queue: Vec<Track>,
    pub playing: Option<Track>,
    pub paused: bool,
    pub current_duration: u64,
    pub current_time: u64,
    pub current_volume: u64,
    pub(crate) session_active: bool,
}

impl View for Playlist {
    type V = PlaylistView;

    open(crate) spec fn view(&self) -> PlaylistView {
        PlaylistView {
            queue: self.queue.deep_view(),
            playing: self.playing.deep_view(),
            paused: self.paused,
            current_duration: self.current_duration,
            current_time: self.current_time,
            current_volume: self.current_volume,
            session_active: self.session_active,
        }
    }
}

/// Builds the playlist aggregate in its fresh state, for the embedding
/// shell to place behind its lock.
pub fn create_playlist() -> (p: Playlist)
    ensures
        p@ == spec_init(),
        p@.wf(),
{
    let p = Playlist {
        queue: Vec::new(),
        playing: None,
        paused: false,
        current_duration: 0,
        current_time: 0,
        current_volume: DEFAULT_VOLUME_BITS,
        session_active: false,
    };
    proof {
        assert(p@ =~= spec_init());
    }
    p
}

impl Playlist {
    /// Appends a track to the queue and selects it for playback. The path
    /// is not validated here; a path the engine cannot open is reported by
    /// the driving loop later, through [`Playlist::on_stream_failed`].
    pub fn add_to_playlist(&mut self, track: Track)
        ensures
            final(self)@ == spec_enqueue(old(self)@, track@),
            old(self)@.wf() ==> final(self)@.wf(),
    {
        let ghost pre = self@;
        let ghost path = track@;
        self.queue.push(track.clone());
        self.playing = Some(track);
        proof {
            assert(self@ =~= spec_enqueue(pre, path));
        }
    }

    /// A snapshot of the queue, in insertion order.
    pub fn list(&self) -> (r: Vec<Track>)
        ensures
            r.deep_view() == self@.queue,
    {
        let mut r: Vec<Track> = Vec::new();
        let mut i: usize = 0;
        while i < self.queue.len()
            invariant
                i <= self.queue.len(),
                r.deep_view() =~= self@.queue.take(i as int),
            decreases self.queue.len() - i,
        {
            let ghost iv = i as int;
            let t = self.queue[i].clone();
            let ghost tv = t@;
            proof {
                assert(tv == self@.queue[iv]);
                assert(self@.queue.take(iv).len() == iv);
            }
            r.push(t);
            i = i + 1;
            proof {
                assert(r.deep_view() =~= self@.queue.take(iv + 1));
            }
        }
        proof {
            assert(self@.queue.take(self.queue.len() as int) =~= self@.queue);
        }
        r
    }

    /// The active track's total length and elapsed position, in that order,
    /// in milliseconds. Both are zero when no session has started.
    pub fn get_time(&self) -> (r: (u64, u64))
        ensures
            r.0 == self@.current_duration,
            r.1 == self@.current_time,
    {
        (self.current_duration, self.current_time)
    }

    /// The stored gain, as the exact bit pattern last set.
    pub fn get_vol(&self) -> (r: u64)
        ensures
            r == self@.current_volume,
    {
        self.current_volume
    }

    /// Stores a gain directly, bypassing the command channel. There is no
    /// ordering guarantee between this and a pending volume command: both
    /// take the same lock and whichever arrives first wins.
    pub fn set_vol(&mut self, vol: u64)
        ensures
            final(self)@ == spec_set_vol(old(self)@, vol),
            old(self)@.wf() ==> final(self)@.wf(),
    {
        let ghost pre = self@;
        self.current_volume = vol;
        proof {
            assert(self@ =~= spec_set_vol(pre, vol));
        }
    }

    /// Whether a live engine session exists.
    pub fn has_session(&self) -> (r: bool)
        ensures
            r == self@.session_active,
    {
        self.session_active
    }
}

} // verus!
