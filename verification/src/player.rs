//! The playback control state machine.
//!
//! The orchestrator's decisions — which track is current, when a preload
//! result is accepted or discarded as stale, how user keys translate into
//! sink commands, when skips are debounced, and where the index goes after
//! a track ends — are all pure functions of the player state and the event,
//! specified and verified here. The unverified shell merely performs the
//! returned actions on the sink, the terminal and the worker threads.

use vstd::prelude::*;

use crate::preload::PreloadResult;
use vstd::arithmetic::div_mod::{
    lemma_add_mod_noop_right, lemma_mod_add_multiples_vanish, lemma_mod_division_less_than_divisor,
    lemma_small_mod,
};

verus! {

/// Two skip commands closer together than this (milliseconds) are taken
/// for key repeat: only the first is honored.
pub const MIN_SKIP_INTERVAL_MS: u64 = 250;

/// How long the outer loop waits on the result channel, in milliseconds,
/// before treating the load of the current track as failed.
pub const PRELOAD_WAIT_MS: u64 = 5000;

/// How long an error line stays on screen, in milliseconds, before playback
/// silently continues with the next track.
pub const ERROR_DWELL_MS: u64 = 5000;

/// How often the status line is refreshed, in milliseconds.
pub const STATUS_REFRESH_MS: u64 = 1000;

/// The bounded wait on the input source each pass of the per-track loop,
/// in milliseconds.
pub const INPUT_POLL_MS: u64 = 100;

/// A user command, as decoded from the keyboard by the shell.
pub enum Key {
    Pause,
    Resume,
    VolumeUp,
    VolumeDown,
    SkipNext,
    SkipPrev,
    Quit,
}

/// Which neighbouring track a user-forced transition moves to.
pub enum SkipDir {
    Next,
    Prev,
}

/// What the shell must do with the sink in response to a key.
pub enum KeyAction {
    /// Nothing: the key does not apply in this state, or the skip was
    /// debounced.
    NoOp,
    /// Pause the sink (and mark the window title).
    PauseSink,
    /// Resume the sink.
    ResumeSink,
    /// Apply this volume, as a percentage, to the sink.
    SetVolume(u8),
    /// Stop the sink and leave the per-track loop; the transition has been
    /// recorded and `advance_after_track` will move the index.
    Skip(SkipDir),
    /// Tear the terminal down and leave the program.
    Quit,
}

/// What the outer loop finds when it re-enters: the current index still
/// names a track, or the list was exhausted and looping restarted it, or
/// playback is over.
pub enum LoopCheck {
    /// The current index is in range; wait for its preload result.
    Proceed,
    /// Past the end with looping on: the index is back at zero, and the
    /// shell must spawn a preload for track zero.
    Restarted,
    /// Past the end with looping off: the session ends.
    Finished,
}

/// The orchestrator's verdict on one preload result.
pub enum Reception {
    /// The result is tagged with some other index than the current one:
    /// drop it and keep waiting.
    Stale,
    /// The current track is ready: hand its stream to the sink, resume the
    /// sink if it was paused, start a fresh track timer, and spawn a
    /// look-ahead preload for `lookahead`, if any.
    Accept { lookahead: Option<usize> },
    /// The current track failed to load: show the error for the fixed dwell
    /// time, then continue; the index has advanced, and a preload must be
    /// spawned for `spawn`, if any.
    FailAdvance { spawn: Option<usize> },
}

/// The playback orchestrator's control state.
pub struct Player {
    /// How many tracks the playlist holds.
    pub total: usize,
    /// Whether the list starts over after the last track.
    pub loop_enabled: bool,
    /// The index of the track being acquired or played. May sit at `total`
    /// between a natural end of the last track and the outer loop check.
    pub current: usize,
    /// Sink volume, as a percentage.
    pub volume: u8,
    /// When the last honored skip happened; `None` before the first.
    pub last_skip: Option<u64>,
    /// The transition the user forced on the playing track, if any; applied
    /// and cleared by `advance_after_track`.
    pub forced: Option<SkipDir>,
}

impl Player {
    pub open spec fn wf(self) -> bool {
        &&& self.total >= 1
        &&& self.current <= self.total
        &&& self.volume <= 100
    }

    /// A track after the current one exists to skip to.
    pub open spec fn can_skip_next(self) -> bool {
        self.current + 1 < self.total || self.loop_enabled
    }

    /// A track before the current one exists to skip to.
    pub open spec fn can_skip_prev(self) -> bool {
        self.current > 0 || self.loop_enabled
    }

    /// A skip at instant `now` comes too soon after the last honored one.
    pub open spec fn debounced(self, now: u64) -> bool {
        match self.last_skip {
            Some(t) => now < t + MIN_SKIP_INTERVAL_MS,
            None => false,
        }
    }

    /// The index a preload should be spawned for once the current track is
    /// playing: the following track, wrapping under loop mode — unless that
    /// would re-preload the current track itself (single-track list) or
    /// there is nothing to follow (last track, looping off).
    pub open spec fn spec_lookahead(self) -> Option<usize> {
        let next = ((self.current + 1) % (self.total as int)) as usize;
        if next != self.current && (self.loop_enabled || self.current + 1 < self.total) {
            Some(next)
        } else {
            None
        }
    }

    /// Sets up playback of `total` tracks starting at the first, with the
    /// requested volume (clamped to 100 percent). No skip has happened yet.
    pub fn new(total: usize, loop_enabled: bool, volume: u8) -> (p: Player)
        requires
            total >= 1,
        ensures
            p.wf(),
            p.total == total,
            p.loop_enabled == loop_enabled,
            p.current == 0,
            p.volume == (if volume <= 100 { volume } else { 100u8 }),
            p.last_skip is None,
            p.forced is None,
    {
        Player {
            total,
            loop_enabled,
            current: 0,
            volume: if volume <= 100 { volume } else { 100 },
            last_skip: None,
            forced: None,
        }
    }
}

/// What the outer loop check does: past-the-end either wraps to zero (loop
/// mode) or ends the session.
pub open spec fn spec_begin_iteration(p: Player) -> (Player, LoopCheck) {
    if p.current < p.total {
        (p, LoopCheck::Proceed)
    } else if p.loop_enabled {
        (Player { current: 0, ..p }, LoopCheck::Restarted)
    } else {
        (p, LoopCheck::Finished)
    }
}

/// What reception of a preload result tagged `index` does: anything not for
/// the current index is stale and dropped; a matching success is accepted
/// (with the look-ahead index to spawn); a matching failure advances the
/// index by one and asks for a preload of the new current track if it is
/// still in range.
pub open spec fn spec_receive(p: Player, index: usize, success: bool) -> (Player, Reception) {
    if index != p.current {
        (p, Reception::Stale)
    } else if success {
        (p, Reception::Accept { lookahead: p.spec_lookahead() })
    } else {
        spec_fail_advance(p)
    }
}

/// What a failed or timed-out load of the current track does: skip forward,
/// never retry.
pub open spec fn spec_fail_advance(p: Player) -> (Player, Reception) {
    let p2 = Player { current: (p.current + 1) as usize, ..p };
    let spawn = if p.current + 1 < p.total {
        Some((p.current + 1) as usize)
    } else {
        Option::<usize>::None
    };
    (p2, Reception::FailAdvance { spawn })
}

/// What one key does to the player state, given whether the sink is
/// currently paused, and which action the shell must take.
pub open spec fn spec_handle_key(p: Player, key: Key, now: u64, sink_paused: bool) -> (
    Player,
    KeyAction,
) {
    match key {
        Key::Pause => if !sink_paused {
            (p, KeyAction::PauseSink)
        } else {
            (p, KeyAction::NoOp)
        },
        Key::Resume => if sink_paused {
            (p, KeyAction::ResumeSink)
        } else {
            (p, KeyAction::NoOp)
        },
        Key::VolumeUp => {
            let v = if p.volume >= 100 {
                100u8
            } else {
                (p.volume + 1) as u8
            };
            (Player { volume: v, ..p }, KeyAction::SetVolume(v))
        },
        Key::VolumeDown => {
            let v = if p.volume == 0 {
                0u8
            } else {
                (p.volume - 1) as u8
            };
            (Player { volume: v, ..p }, KeyAction::SetVolume(v))
        },
        Key::SkipNext => {
            if p.debounced(now) {
                (p, KeyAction::NoOp)
            } else if p.can_skip_next() {
                (
                    Player { last_skip: Some(now), forced: Some(SkipDir::Next), ..p },
                    KeyAction::Skip(SkipDir::Next),
                )
            } else {
                (p, KeyAction::NoOp)
            }
        },
        Key::SkipPrev => {
            if p.debounced(now) {
                (p, KeyAction::NoOp)
            } else if p.can_skip_prev() {
                (
                    Player { last_skip: Some(now), forced: Some(SkipDir::Prev), ..p },
                    KeyAction::Skip(SkipDir::Prev),
                )
            } else {
                (p, KeyAction::NoOp)
            }
        },
        Key::Quit => (p, KeyAction::Quit),
    }
}

/// Where the index goes once the per-track loop has ended: a user-forced
/// transition wraps around the list; a natural end steps forward, possibly
/// past the end, which the next outer loop check resolves.
pub open spec fn spec_advance(p: Player) -> Player {
    match p.forced {
        Some(SkipDir::Next) => Player {
            current: ((p.current + 1) % (p.total as int)) as usize,
            forced: None,
            ..p
        },
        Some(SkipDir::Prev) => Player {
            current: (if p.current == 0 {
                (p.total - 1) as usize
            } else {
                (p.current - 1) as usize
            }),
            forced: None,
            ..p
        },
        None => Player { current: (p.current + 1) as usize, forced: None, ..p },
    }
}

impl Player {
    /// The outer loop check, run before acquiring a track.
    pub fn begin_iteration(&mut self) -> (r: LoopCheck)
        requires
            old(self).wf(),
        ensures
            (*final(self), r) == spec_begin_iteration(*old(self)),
            final(self).wf(),
            r is Finished || final(self).current < final(self).total,
    {
        if self.current < self.total {
            LoopCheck::Proceed
        } else if self.loop_enabled {
            self.current = 0;
            LoopCheck::Restarted
        } else {
            LoopCheck::Finished
        }
    }

    /// Decides on one message read from the result channel.
    pub fn on_message(&mut self, msg: &PreloadResult) -> (r: Reception)
        requires
            old(self).wf(),
            old(self).current < old(self).total,
        ensures
            (*final(self), r) == spec_receive(
                *old(self),
                msg.target_index(),
                msg is Success,
            ),
            final(self).wf(),
    {
        let index = msg.index();
        if index != self.current {
            Reception::Stale
        } else {
            match msg {
                PreloadResult::Success(_, _) => {
                    proof {
                        lemma_mod_division_less_than_divisor(
                            self.current + 1,
                            self.total as int,
                        );
                    }
                    let next = (self.current + 1) % self.total;
                    let lookahead = if next != self.current && (self.loop_enabled || self.current
                        + 1 < self.total) {
                        Some(next)
                    } else {
                        None
                    };
                    Reception::Accept { lookahead }
                },
                PreloadResult::Failure(_, _, _) => {
                    let spawn = if self.current + 1 < self.total {
                        Some(self.current + 1)
                    } else {
                        None
                    };
                    self.current = self.current + 1;
                    Reception::FailAdvance { spawn }
                },
            }
        }
    }

    /// Decides after the bounded wait on the result channel ran out with no
    /// message at all: treated exactly like a failed load of the current
    /// track.
    pub fn on_timeout(&mut self) -> (r: Reception)
        requires
            old(self).wf(),
            old(self).current < old(self).total,
        ensures
            (*final(self), r) == spec_fail_advance(*old(self)),
            final(self).wf(),
    {
        let spawn = if self.current + 1 < self.total {
            Some(self.current + 1)
        } else {
            None
        };
        self.current = self.current + 1;
        Reception::FailAdvance { spawn }
    }

    /// Decides on one key event during playback. `now_ms` comes from a
    /// monotonic clock, so it never sits before the last honored skip.
    pub fn handle_key(&mut self, key: Key, now_ms: u64, sink_paused: bool) -> (a: KeyAction)
        requires
            old(self).wf(),
            match old(self).last_skip {
                Some(t) => now_ms >= t,
                None => true,
            },
        ensures
            (*final(self), a) == spec_handle_key(*old(self), key, now_ms, sink_paused),
            final(self).wf(),
    {
        match key {
            Key::Pause => if !sink_paused {
                KeyAction::PauseSink
            } else {
                KeyAction::NoOp
            },
            Key::Resume => if sink_paused {
                KeyAction::ResumeSink
            } else {
                KeyAction::NoOp
            },
            Key::VolumeUp => {
                let v = if self.volume >= 100 {
                    100
                } else {
                    self.volume + 1
                };
                self.volume = v;
                KeyAction::SetVolume(v)
            },
            Key::VolumeDown => {
                let v = if self.volume == 0 {
                    0
                } else {
                    self.volume - 1
                };
                self.volume = v;
                KeyAction::SetVolume(v)
            },
            Key::SkipNext => {
                let debounced = match self.last_skip {
                    Some(t) => now_ms - t < MIN_SKIP_INTERVAL_MS,
                    None => false,
                };
                if debounced {
                    KeyAction::NoOp
                } else if self.current < self.total - 1 || self.loop_enabled {
                    self.last_skip = Some(now_ms);
                    self.forced = Some(SkipDir::Next);
                    KeyAction::Skip(SkipDir::Next)
                } else {
                    KeyAction::NoOp
                }
            },
            Key::SkipPrev => {
                let debounced = match self.last_skip {
                    Some(t) => now_ms - t < MIN_SKIP_INTERVAL_MS,
                    None => false,
                };
                if debounced {
                    KeyAction::NoOp
                } else if self.current > 0 || self.loop_enabled {
                    self.last_skip = Some(now_ms);
                    self.forced = Some(SkipDir::Prev);
                    KeyAction::Skip(SkipDir::Prev)
                } else {
                    KeyAction::NoOp
                }
            },
            Key::Quit => KeyAction::Quit,
        }
    }

    /// Moves the index once the per-track loop has ended, applying and
    /// clearing any user-forced transition.
    pub fn advance_after_track(&mut self)
        requires
            old(self).wf(),
            old(self).current < old(self).total,
        ensures
            *final(self) == spec_advance(*old(self)),
            final(self).wf(),
    {
        match self.forced {
            Some(SkipDir::Next) => {
                proof {
                    lemma_mod_division_less_than_divisor(self.current + 1, self.total as int);
                }
                self.current = (self.current + 1) % self.total;
            },
            Some(SkipDir::Prev) => {
                self.current = if self.current == 0 {
                    self.total - 1
                } else {
                    self.current - 1
                };
            },
            None => {
                self.current = self.current + 1;
            },
        }
        self.forced = None;
    }
}

/// A stale preload result — tagged with any index other than the current
/// one — is never accepted, whichever outcome it carries and however worker
/// completions interleave: reception discards it and the player state is
/// untouched.
pub proof fn lemma_stale_results_discarded(p: Player, index: usize, success: bool)
    requires
        index != p.current,
    ensures
        spec_receive(p, index, success) == (p, Reception::Stale),
{
}

/// With looping disabled, skip-next at the last track is a no-op: no action
/// is taken and the player state — index, debounce stamp, forced-transition
/// flag — is unchanged.
pub proof fn lemma_skip_next_at_end_noop(p: Player, now: u64, sink_paused: bool)
    requires
        !p.loop_enabled,
        p.current + 1 >= p.total,
    ensures
        spec_handle_key(p, Key::SkipNext, now, sink_paused) == (p, KeyAction::NoOp),
{
}

/// An honored skip-next, followed by the track transition it forces, moves
/// the index to exactly the following track, modulo the playlist length.
pub proof fn lemma_skip_next_honored(p: Player, now: u64, sink_paused: bool)
    requires
        p.wf(),
        p.current < p.total,
        !p.debounced(now),
        p.can_skip_next(),
    ensures
        spec_handle_key(p, Key::SkipNext, now, sink_paused).1 == KeyAction::Skip(SkipDir::Next),
        spec_advance(spec_handle_key(p, Key::SkipNext, now, sink_paused).0).current == (p.current
            + 1) % (p.total as int),
{
}

/// Two skip-next presses issued less than the debounce interval apart — at
/// `t1`, honored, and at `t2`, during the next track — advance the index by
/// exactly one: the second press is ignored and changes nothing.
pub proof fn lemma_skip_debounced(p: Player, t1: u64, t2: u64, sink_paused: bool)
    requires
        p.wf(),
        p.current < p.total,
        !p.debounced(t1),
        p.can_skip_next(),
        t1 <= t2,
        t2 < t1 + MIN_SKIP_INTERVAL_MS,
    ensures
        ({
            let (p1, a1) = spec_handle_key(p, Key::SkipNext, t1, sink_paused);
            let p2 = spec_advance(p1);
            &&& a1 == KeyAction::Skip(SkipDir::Next)
            &&& p2.current == (p.current + 1) % (p.total as int)
            &&& spec_handle_key(p2, Key::SkipNext, t2, sink_paused) == (p2, KeyAction::NoOp)
        }),
{
    lemma_skip_next_honored(p, t1, sink_paused);
}

/// One user-forced skip forward: the key press and the track transition it
/// forces once the sink stops.
pub open spec fn spec_skip_step(p: Player, now: u64) -> Player {
    spec_advance(spec_handle_key(p, Key::SkipNext, now, false).0)
}

/// Repeated skip-next presses at the given instants, each press followed by
/// its track transition.
pub open spec fn run_skips(p: Player, nows: Seq<u64>) -> Player
    decreases nows.len(),
{
    if nows.len() == 0 {
        p
    } else {
        run_skips(spec_skip_step(p, nows[0]), nows.drop_first())
    }
}

/// The press instants each land at or past the debounce interval after the
/// previous honored skip.
pub open spec fn presses_spaced(last_skip: Option<u64>, nows: Seq<u64>) -> bool
    decreases nows.len(),
{
    if nows.len() == 0 {
        true
    } else {
        &&& match last_skip {
            Some(t) => nows[0] >= t + MIN_SKIP_INTERVAL_MS,
            None => true,
        }
        &&& presses_spaced(Some(nows[0]), nows.drop_first())
    }
}

/// With looping enabled, every adequately spaced skip-next press is honored
/// and the index moves by exactly the number of presses, modulo the
/// playlist length.
pub proof fn lemma_spaced_skips_advance(p: Player, nows: Seq<u64>)
    requires
        p.wf(),
        p.loop_enabled,
        p.current < p.total,
        presses_spaced(p.last_skip, nows),
    ensures
        ({
            let q = run_skips(p, nows);
            &&& q.wf()
            &&& q.current < q.total
            &&& q.current == (p.current + nows.len()) % (p.total as int)
        }),
    decreases nows.len(),
{
    if nows.len() == 0 {
        lemma_small_mod(p.current as nat, p.total as nat);
    } else {
        let p1 = spec_skip_step(p, nows[0]);
        lemma_mod_division_less_than_divisor(p.current + 1, p.total as int);
        vstd::arithmetic::div_mod::lemma_mod_bound(p.current + 1, p.total as int);
        lemma_spaced_skips_advance(p1, nows.drop_first());
        lemma_add_mod_noop_right((nows.len() - 1) as int, p.current + 1, p.total as int);
    }
}

/// On a playlist of `n` tracks with looping enabled, `n` spaced skip-next
/// presses return the index to where it started: skip arithmetic is modulo
/// the playlist length.
pub proof fn lemma_skip_cycle(p: Player, nows: Seq<u64>)
    requires
        p.wf(),
        p.loop_enabled,
        p.current < p.total,
        presses_spaced(p.last_skip, nows),
        nows.len() == p.total,
    ensures
        run_skips(p, nows).current == p.current,
{
    lemma_spaced_skips_advance(p, nows);
    lemma_mod_add_multiples_vanish(p.current as int, p.total as int);
    lemma_small_mod(p.current as nat, p.total as nat);
}

} // verus!
