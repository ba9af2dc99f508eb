//! The preload result protocol.
//!
//! A background worker resolves one track ahead of time and reports back
//! exactly once, over a single many-producer channel, with a message tagged
//! by the playlist index it was spawned for. The tag is what lets the
//! orchestrator discard results that user skips have made stale.

use vstd::prelude::*;

verus! {

/// Metadata a preload worker resolved for a track. Resolution failures are
/// not fatal: a worker falls back to placeholder values (and zero seconds
/// stands for an unknown duration).
pub struct TrackMeta {
    pub title: String,
    pub artist: String,
    pub duration_secs: u64,
}

/// One message from a preload worker. The decoded audio stream itself is
/// owned by the unverified shell, keyed by the same index; the verified
/// core decides on the tag and the metadata alone.
pub enum PreloadResult {
    /// The track at this index was opened and decoded.
    Success(TrackMeta, usize),
    /// The track at this index could not be opened or decoded: the index,
    /// a reason to display, and the track's display name.
    Failure(usize, String, String),
}

impl PreloadResult {
    /// The playlist index this result was produced for.
    pub open spec fn target_index(self) -> usize {
        match self {
            PreloadResult::Success(_, i) => i,
            PreloadResult::Failure(i, _, _) => i,
        }
    }

    /// The playlist index this result was produced for.
    pub fn index(&self) -> (i: usize)
        ensures
            i == self.target_index(),
    {
        match self {
            PreloadResult::Success(_, i) => *i,
            PreloadResult::Failure(i, _, _) => *i,
        }
    }
}

} // verus!
