//! Pause-aware elapsed-time model for the current track.
//!
//! Timestamps are milliseconds on a monotonic clock with an arbitrary
//! origin. The timer reports how long the track has actually played:
//! wall-clock time spent paused is excluded, and the reported value is
//! frozen for the whole duration of a pause.

use vstd::prelude::*;

verus! {

/// Per-track play-time bookkeeping, updated by `tick` on every pass of the
/// playback loop.
pub struct TrackTimer {
    /// When the track began playing.
    pub started_at: u64,
    /// Total time spent in pauses that have already ended.
    pub pause_total: u64,
    /// When the current pause began; `None` while playing.
    pub pause_started: Option<u64>,
    /// Elapsed play time captured at the instant the current pause began;
    /// meaningful only while paused.
    pub frozen: u64,
    /// The latest timestamp this timer has seen.
    pub observed: u64,
}

impl TrackTimer {
    pub open spec fn wf(self) -> bool {
        &&& self.started_at <= self.observed
        &&& self.pause_total <= self.observed - self.started_at
        &&& match self.pause_started {
            Some(p) => {
                &&& self.started_at <= p <= self.observed
                &&& self.pause_total <= p - self.started_at
                &&& self.frozen == p - self.started_at - self.pause_total
            },
            None => true,
        }
    }

    /// The elapsed play time the timer reports, at the instant it last
    /// observed: frozen while paused, running wall time minus pauses
    /// otherwise.
    pub open spec fn elapsed_ms(self) -> int {
        if self.pause_started is Some {
            self.frozen as int
        } else {
            self.observed - self.started_at - self.pause_total
        }
    }

    /// What one `tick` at instant `now` does, given whether the sink is
    /// paused: entering a pause records its start and freezes the elapsed
    /// value; leaving one folds the pause's length into `pause_total`.
    pub open spec fn spec_tick(self, now: u64, paused: bool) -> TrackTimer {
        match self.pause_started {
            None => {
                if paused {
                    TrackTimer {
                        pause_started: Some(now),
                        frozen: (now - self.started_at - self.pause_total) as u64,
                        observed: now,
                        ..self
                    }
                } else {
                    TrackTimer { observed: now, ..self }
                }
            },
            Some(p) => {
                if paused {
                    TrackTimer { observed: now, ..self }
                } else {
                    TrackTimer {
                        pause_total: (self.pause_total + (now - p)) as u64,
                        pause_started: None,
                        observed: now,
                        ..self
                    }
                }
            },
        }
    }

    /// Starts timing a track at instant `now`.
    pub fn new(now: u64) -> (t: TrackTimer)
        ensures
            t.wf(),
            t.elapsed_ms() == 0,
            t.observed == now,
            t.pause_started is None,
    {
        TrackTimer {
            started_at: now,
            pause_total: 0,
            pause_started: None,
            frozen: 0,
            observed: now,
        }
    }

    /// One pass of the playback loop: observe the clock and the sink's
    /// paused state, and update the pause bookkeeping.
    pub fn tick(&mut self, now: u64, paused: bool)
        requires
            old(self).wf(),
            now >= old(self).observed,
        ensures
            *final(self) == old(self).spec_tick(now, paused),
            final(self).wf(),
    {
        proof {
            lemma_tick_monotonic(*old(self), now, paused);
        }
        match self.pause_started {
            None => {
                if paused {
                    self.frozen = now - self.started_at - self.pause_total;
                    self.pause_started = Some(now);
                }
            },
            Some(p) => {
                if !paused {
                    self.pause_total = self.pause_total + (now - p);
                    self.pause_started = None;
                }
            },
        }
        self.observed = now;
    }

    /// The reported elapsed play time, in milliseconds.
    pub fn elapsed_millis(&self) -> (e: u64)
        requires
            self.wf(),
        ensures
            e == self.elapsed_ms(),
    {
        match self.pause_started {
            Some(_) => self.frozen,
            None => self.observed - self.started_at - self.pause_total,
        }
    }

    /// The reported elapsed play time, in whole seconds, for display.
    pub fn elapsed_secs(&self) -> (e: u64)
        requires
            self.wf(),
        ensures
            e == self.elapsed_ms() / 1000,
    {
        self.elapsed_millis() / 1000
    }
}

/// A tick at a later or equal instant never decreases the reported elapsed
/// time, whatever the pause state does.
pub proof fn lemma_tick_monotonic(t: TrackTimer, now: u64, paused: bool)
    requires
        t.wf(),
        now >= t.observed,
    ensures
        t.spec_tick(now, paused).wf(),
        t.spec_tick(now, paused).elapsed_ms() >= t.elapsed_ms(),
        t.spec_tick(now, paused).observed == now,
{
}

/// While the sink stays paused, ticking leaves the reported elapsed time
/// exactly where it froze.
pub proof fn lemma_paused_elapsed_constant(t: TrackTimer, now: u64)
    requires
        t.wf(),
        now >= t.observed,
        t.pause_started is Some,
    ensures
        t.spec_tick(now, true).elapsed_ms() == t.elapsed_ms(),
{
}

/// Pausing and then immediately resuming, with no wall-clock time in
/// between, reports the same elapsed time as never having paused: the
/// timing model is idempotent under instant pause/resume cycling.
pub proof fn lemma_pause_resume_idempotent(t: TrackTimer, now: u64)
    requires
        t.wf(),
        now >= t.observed,
    ensures
        t.spec_tick(now, true).spec_tick(now, false).elapsed_ms() == t.spec_tick(
            now,
            false,
        ).elapsed_ms(),
{
}

/// A whole run of ticks, applied left to right.
pub open spec fn run_ticks(t: TrackTimer, ops: Seq<(u64, bool)>) -> TrackTimer
    decreases ops.len(),
{
    if ops.len() == 0 {
        t
    } else {
        run_ticks(t.spec_tick(ops[0].0, ops[0].1), ops.drop_first())
    }
}

/// The timestamps in `ops` never run backwards, starting from `obs`.
pub open spec fn ops_monotone_from(obs: u64, ops: Seq<(u64, bool)>) -> bool
    decreases ops.len(),
{
    if ops.len() == 0 {
        true
    } else {
        ops[0].0 >= obs && ops_monotone_from(ops[0].0, ops.drop_first())
    }
}

/// Reported elapsed time is monotonically non-decreasing across any
/// sequence of pause, resume and tick operations whose timestamps do not
/// run backwards.
pub proof fn lemma_run_ticks_monotonic(t: TrackTimer, ops: Seq<(u64, bool)>)
    requires
        t.wf(),
        ops_monotone_from(t.observed, ops),
    ensures
        run_ticks(t, ops).wf(),
        run_ticks(t, ops).elapsed_ms() >= t.elapsed_ms(),
        run_ticks(t, ops).observed >= t.observed,
    decreases ops.len(),
{
    if ops.len() > 0 {
        lemma_tick_monotonic(t, ops[0].0, ops[0].1);
        lemma_run_ticks_monotonic(t.spec_tick(ops[0].0, ops[0].1), ops.drop_first());
    }
}

/// For the whole duration of a pause, the reported elapsed time stays
/// constant: any run of ticks that observes the sink paused throughout
/// reports exactly the value frozen when the pause began.
pub proof fn lemma_run_ticks_paused_frozen(t: TrackTimer, ops: Seq<(u64, bool)>)
    requires
        t.wf(),
        t.pause_started is Some,
        ops_monotone_from(t.observed, ops),
        forall|i: int| 0 <= i < ops.len() ==> ops[i].1 == true,
    ensures
        run_ticks(t, ops).elapsed_ms() == t.elapsed_ms(),
    decreases ops.len(),
{
    if ops.len() > 0 {
        lemma_paused_elapsed_constant(t, ops[0].0);
        lemma_tick_monotonic(t, ops[0].0, true);
        lemma_run_ticks_paused_frozen(t.spec_tick(ops[0].0, true), ops.drop_first());
    }
}

} // verus!
