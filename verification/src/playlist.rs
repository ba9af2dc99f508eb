//! The playlist: an ordered list of track locators, fixed once built, plus
//! the play-mode flags. Shuffling happens once, at construction.

use vstd::prelude::*;

use crate::text::str_eq;

verus! {

/// Whether a (lowercased) file extension names an audio format the player
/// accepts when scanning a directory for tracks.
pub fn is_supported_audio_ext(ext: &str) -> (r: bool)
    ensures
        r == (ext@ == "mp3"@ || ext@ == "ogg"@ || ext@ == "flac"@ || ext@ == "aac"@ || ext@
            == "m4a"@ || ext@ == "wav"@),
{
    str_eq(ext, "mp3") || str_eq(ext, "ogg") || str_eq(ext, "flac") || str_eq(ext, "aac")
        || str_eq(ext, "m4a") || str_eq(ext, "wav")
}

/// Relies on rand's `SliceRandom::shuffle` (driven by `rand::thread_rng`):
/// an in-place permutation of the slice, so exactly the original elements
/// remain, in some order.
#[verifier::external_body]
fn shuffle_strings(v: &mut Vec<String>)
    ensures
        final(v)@.to_multiset() == old(v)@.to_multiset(),
        final(v)@.len() == old(v)@.len(),
{
    let mut rng = rand::thread_rng();
    rand::seq::SliceRandom::shuffle(v.as_mut_slice(), &mut rng);
}

/// An ordered list of track locators (paths, as handed to the decoder) and
/// the play-mode flags. Built once at startup; playback only reads it.
pub struct Playlist {
    /// The track locators, in play order.
    pub tracks: Vec<String>,
    /// Whether the list starts over after its last track.
    pub loop_enabled: bool,
    /// Whether the list was shuffled at construction (display only).
    pub shuffled: bool,
}

impl View for Playlist {
    type V = Seq<String>;

    open spec fn view(&self) -> Seq<String> {
        self.tracks@
    }
}

impl Playlist {
    /// Builds the playlist. With `shuffle` set the given tracks are
    /// reordered randomly, once; exactly the given tracks are kept either
    /// way.
    pub fn new(tracks: Vec<String>, loop_enabled: bool, shuffle: bool) -> (p: Playlist)
        ensures
            p.loop_enabled == loop_enabled,
            p.shuffled == shuffle,
            p@.len() == tracks@.len(),
            p@.to_multiset() == tracks@.to_multiset(),
            !shuffle ==> p@ == tracks@,
    {
        let mut tracks = tracks;
        if shuffle {
            shuffle_strings(&mut tracks);
        }
        Playlist { tracks, loop_enabled, shuffled: shuffle }
    }

    /// How many tracks the list holds.
    pub fn len(&self) -> (n: usize)
        ensures
            n == self@.len(),
    {
        self.tracks.len()
    }

    pub fn is_empty(&self) -> (r: bool)
        ensures
            r == (self@.len() == 0),
    {
        self.tracks.len() == 0
    }

    /// The locator of track `index`, cloned for handing to a preload worker.
    pub fn track_at(&self, index: usize) -> (t: String)
        requires
            index < self@.len(),
        ensures
            t == self@[index as int],
    {
        self.tracks[index].clone()
    }
}

} // verus!
