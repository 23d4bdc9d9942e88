//! The one value a playlist holds: a track, identified by its path.

use vstd::prelude::*;

verus! {

/// A single audio track: a filesystem path naming playable content. A track
/// has no identity beyond its path; two tracks with equal paths are the same
/// track.
#[derive(Debug)]
pub struct Track {
    pub path: String,
}

impl Clone for Track {
    /// A clone is the same track: it carries the same path.
    fn clone(&self) -> (t: Track)
        ensures
            t@ == self@,
    {
        Track { path: self.path.clone() }
    }
}

impl View for Track {
    type V = Seq<char>;

    open spec fn view(&self) -> Seq<char> {
        self.path@
    }
}

impl DeepView for Track {
    type V = Seq<char>;

    open spec fn deep_view(&self) -> Seq<char> {
        self.path@
    }
}

} // verus!
