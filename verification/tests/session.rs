//! Whole-session scenarios driving the orchestrator state machine the way
//! the playback shell does.

use tplayer::player::{Key, KeyAction, LoopCheck, Player, Reception};
use tplayer::preload::{PreloadResult, TrackMeta};

fn meta(title: &str) -> TrackMeta {
    TrackMeta {
        title: String::from(title),
        artist: String::from("artist"),
        duration_secs: 180,
    }
}

#[test]
fn failing_middle_track_is_skipped_not_played() {
    // Three tracks, loop disabled; tracks 0 and 2 decode, track 1 fails to
    // open. Expected: track 0 plays, the error for track 1 is shown and
    // dwelt on, track 2 plays, the session ends — track 1 is never played.
    let mut p = Player::new(3, false, 50);
    let mut played: Vec<usize> = Vec::new();

    // Track 0 arrives and plays; a look-ahead for track 1 is requested.
    assert!(matches!(p.begin_iteration(), LoopCheck::Proceed));
    let r = p.on_message(&PreloadResult::Success(meta("zero"), 0));
    match r {
        Reception::Accept { lookahead } => {
            played.push(p.current);
            assert_eq!(lookahead, Some(1));
        },
        _ => panic!("track 0 should be accepted"),
    }
    // Track 0 finishes naturally.
    p.advance_after_track();
    assert_eq!(p.current, 1);

    // The look-ahead worker reports that track 1 cannot be opened.
    assert!(matches!(p.begin_iteration(), LoopCheck::Proceed));
    let r = p.on_message(&PreloadResult::Failure(
        1,
        String::from("cannot open"),
        String::from("one.mp3"),
    ));
    match r {
        Reception::FailAdvance { spawn } => {
            // The shell shows the error line and dwells; no playback.
            assert_eq!(spawn, Some(2));
        },
        _ => panic!("track 1 should fail forward"),
    }
    assert_eq!(p.current, 2);

    // Track 2 arrives and plays; nothing follows it.
    assert!(matches!(p.begin_iteration(), LoopCheck::Proceed));
    let r = p.on_message(&PreloadResult::Success(meta("two"), 2));
    match r {
        Reception::Accept { lookahead } => {
            played.push(p.current);
            assert_eq!(lookahead, None);
        },
        _ => panic!("track 2 should be accepted"),
    }
    p.advance_after_track();

    // The list is exhausted.
    assert!(matches!(p.begin_iteration(), LoopCheck::Finished));
    assert_eq!(played, vec![0, 2]);
}

#[test]
fn single_looping_track_restarts_until_quit() {
    // One track with loop enabled: each natural end leads to a restart with
    // a fresh preload of index 0, indefinitely, until quit.
    let mut p = Player::new(1, true, 50);
    let mut restarts = 0;

    assert!(matches!(p.begin_iteration(), LoopCheck::Proceed));
    for round in 0..5 {
        let r = p.on_message(&PreloadResult::Success(meta("only"), 0));
        match r {
            Reception::Accept { lookahead } => {
                // A one-track list never preloads ahead of itself...
                assert_eq!(lookahead, None, "round {}", round);
            },
            _ => panic!("the only track should be accepted"),
        }
        // ...the track plays to its natural end...
        p.advance_after_track();
        assert_eq!(p.current, 1);
        // ...and the loop check restarts the list, asking the shell to
        // spawn a new preload for index 0.
        match p.begin_iteration() {
            LoopCheck::Restarted => restarts += 1,
            other => panic!("expected a restart, got {:?}", discriminant_name(&other)),
        }
        assert_eq!(p.current, 0);
    }
    assert_eq!(restarts, 5);

    // Quit is the one exit.
    assert!(matches!(p.handle_key(Key::Quit, 0, false), KeyAction::Quit));
}

fn discriminant_name(l: &LoopCheck) -> &'static str {
    match l {
        LoopCheck::Proceed => "Proceed",
        LoopCheck::Restarted => "Restarted",
        LoopCheck::Finished => "Finished",
    }
}

#[test]
fn stale_success_between_tracks_is_dropped_before_the_real_one() {
    // A worker for an index the user already skipped past completes first;
    // its result must be discarded and the wait continue.
    let mut p = Player::new(4, true, 50);
    // The user skips from track 0 to track 1 while preloads for 0 and 1 are
    // in flight.
    p.handle_key(Key::SkipNext, 1_000, false);
    p.advance_after_track();
    assert_eq!(p.current, 1);

    // The preload for track 0 lands now: stale.
    let r = p.on_message(&PreloadResult::Success(meta("zero"), 0));
    assert!(matches!(r, Reception::Stale));
    assert_eq!(p.current, 1);

    // The preload for track 1 lands next: accepted.
    let r = p.on_message(&PreloadResult::Success(meta("one"), 1));
    assert!(matches!(r, Reception::Accept { lookahead: Some(2) }));
}
