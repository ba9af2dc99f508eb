//! Playlist construction: order, shuffling, the supported-format filter.

use tplayer::playlist::{is_supported_audio_ext, Playlist};

fn tracks() -> Vec<String> {
    vec![
        String::from("a.mp3"),
        String::from("b.ogg"),
        String::from("c.flac"),
        String::from("d.wav"),
    ]
}

#[test]
fn unshuffled_playlist_keeps_order() {
    let p = Playlist::new(tracks(), false, false);
    assert_eq!(p.len(), 4);
    assert!(!p.is_empty());
    assert_eq!(p.track_at(0), "a.mp3");
    assert_eq!(p.track_at(3), "d.wav");
    assert!(!p.loop_enabled);
    assert!(!p.shuffled);
}

#[test]
fn shuffled_playlist_keeps_exactly_the_same_tracks() {
    let p = Playlist::new(tracks(), true, true);
    assert_eq!(p.len(), 4);
    assert!(p.shuffled);
    assert!(p.loop_enabled);
    let mut got: Vec<String> = (0..p.len()).map(|i| p.track_at(i)).collect();
    got.sort();
    let mut want = tracks();
    want.sort();
    assert_eq!(got, want);
}

#[test]
fn empty_playlist_reports_empty() {
    let p = Playlist::new(Vec::new(), false, false);
    assert!(p.is_empty());
    assert_eq!(p.len(), 0);
}

#[test]
fn supported_audio_extensions() {
    for good in ["mp3", "ogg", "flac", "aac", "m4a", "wav"] {
        assert!(is_supported_audio_ext(good), "{} should be accepted", good);
    }
    for bad in ["txt", "MP3", "mp4", "", "wave", "oga"] {
        assert!(!is_supported_audio_ext(bad), "{} should be rejected", bad);
    }
}
