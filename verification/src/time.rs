//! Frame clock: per-frame elapsed time and a rolling one-second
//! frames-per-second counter.
//!
//! All timestamps are nanoseconds read from a monotonic source supplied by
//! the caller, so the clock itself is deterministic and testable with a
//! synthetic time source.

use vstd::prelude::*;

verus! {

/// Nanoseconds in one second, the sampling window of the fps counter.
pub const NANOS_PER_SEC: u64 = 1_000_000_000;

/// Keep track of time.
///
/// `tick` is called exactly once per frame with the current monotonic
/// timestamp; it stores the elapsed time since the previous call and, once at
/// least a second has passed since the last sample point, snapshots the frame
/// counter as the new frames-per-second value.
pub struct Time {
    delta_time: u64,
    last_time: u64,
    last_sec: u64,
    frame_count: u64,
    fps: u64,
}

impl Time {
    /// Elapsed nanoseconds between the two most recent ticks.
    pub closed spec fn spec_delta_time(self) -> u64 {
        self.delta_time
    }

    /// Timestamp of the most recent tick (construction time before any tick).
    pub closed spec fn spec_last_time(self) -> u64 {
        self.last_time
    }

    /// Start of the current one-second sampling window.
    pub closed spec fn spec_last_sec(self) -> u64 {
        self.last_sec
    }

    /// Ticks seen inside the current sampling window.
    pub closed spec fn spec_frame_count(self) -> u64 {
        self.frame_count
    }

    /// Frames counted in the last completed sampling window.
    pub closed spec fn spec_fps(self) -> u64 {
        self.fps
    }

    /// The sampling window never starts after the latest tick.
    pub open spec fn wf(self) -> bool {
        self.spec_last_sec() <= self.spec_last_time()
    }

    /// The clock state after one tick at timestamp `now`: the delta is the
    /// time since the previous tick; a tick at least one second past the
    /// sample point publishes the frames counted inside the window as the
    /// new fps value and starts a new window that the tick itself belongs
    /// to.
    pub closed spec fn ticked(self, now: u64) -> Time {
        let delta = (now - self.last_time) as u64;
        if now - self.last_sec >= NANOS_PER_SEC {
            Time {
                delta_time: delta,
                last_time: now,
                last_sec: now,
                frame_count: 1,
                fps: self.frame_count,
            }
        } else {
            Time {
                delta_time: delta,
                last_time: now,
                last_sec: self.last_sec,
                frame_count: (self.frame_count + 1) as u64,
                fps: self.fps,
            }
        }
    }

    /// A clock whose reference point is the monotonic timestamp `now`.
    pub fn new(now: u64) -> (t: Time)
        ensures
            t.wf(),
            t.spec_delta_time() == 0,
            t.spec_last_time() == now,
            t.spec_last_sec() == now,
            t.spec_frame_count() == 0,
            t.spec_fps() == 0,
    {
        Time { delta_time: 0, last_time: now, last_sec: now, frame_count: 0, fps: 0 }
    }

    /// Advance the clock to the monotonic timestamp `now` and return the
    /// elapsed nanoseconds since the previous tick (or since construction for
    /// the first tick).
    ///
    /// Once at least one second has elapsed since the last sample point, the
    /// frames counted inside that window become the new fps value and the
    /// window restarts at `now` with this tick as its first frame; otherwise
    /// fps keeps its previous value.
    pub fn tick(&mut self, now: u64) -> (delta: u64)
        requires
            old(self).wf(),
            now >= old(self).spec_last_time(),
            old(self).spec_frame_count() < u64::MAX,
        ensures
            final(self).wf(),
            *final(self) == old(self).ticked(now),
            delta == now - old(self).spec_last_time(),
            final(self).spec_delta_time() == delta,
            final(self).spec_last_time() == now,
            final(self).spec_fps() == if now - old(self).spec_last_sec() >= NANOS_PER_SEC {
                old(self).spec_frame_count()
            } else {
                old(self).spec_fps()
            },
            final(self).spec_frame_count() == if now - old(self).spec_last_sec()
                >= NANOS_PER_SEC {
                1 as int
            } else {
                old(self).spec_frame_count() + 1
            },
            final(self).spec_last_sec() == if now - old(self).spec_last_sec() >= NANOS_PER_SEC {
                now
            } else {
                old(self).spec_last_sec()
            },
    {
        let delta = now - self.last_time;
        self.last_time = now;
        self.delta_time = delta;

        if now - self.last_sec >= NANOS_PER_SEC {
            self.last_sec = now;
            self.fps = self.frame_count;
            self.frame_count = 0;
        }
        self.frame_count = self.frame_count + 1;

        delta
    }

    /// Frames counted in the last completed one-second window.
    pub fn fps(&self) -> (r: u64)
        ensures
            r == self.spec_fps(),
    {
        self.fps
    }

    /// Elapsed nanoseconds between the two most recent ticks.
    pub fn delta_time(&self) -> (r: u64)
        ensures
            r == self.spec_delta_time(),
    {
        self.delta_time
    }

    /// Ticks seen inside the current sampling window.
    pub fn frame_count(&self) -> (r: u64)
        ensures
            r == self.spec_frame_count(),
    {
        self.frame_count
    }
}

/// The clock after ticking once at each timestamp of `ts`, in order.
pub open spec fn ticked_all(c: Time, ts: Seq<u64>) -> Time
    decreases ts.len(),
{
    if ts.len() == 0 {
        c
    } else {
        ticked_all(c, ts.drop_last()).ticked(ts.last())
    }
}

/// Law: for any two consecutive ticks at timestamps `t1` then `t2`, each
/// call's delta is exactly the time elapsed since the previous call — for
/// the first call, since the clock's reference point.
pub proof fn lemma_delta_tracks_elapsed(c: Time, t1: u64, t2: u64)
    requires
        t1 >= c.spec_last_time(),
        t2 >= t1,
    ensures
        c.ticked(t1).spec_delta_time() == t1 - c.spec_last_time(),
        c.ticked(t1).spec_last_time() == t1,
        c.ticked(t1).ticked(t2).spec_delta_time() == t2 - t1,
{
}

/// Law: a clock whose sampling window starts at `start` with nothing
/// counted, after ticking once at each timestamp of `ts` — all inside the
/// one-second window — still has its window anchored at `start` and has
/// counted exactly the ticks of `ts`, and its fps value is untouched.
pub proof fn lemma_window_counts_ticks(c: Time, start: u64, ts: Seq<u64>)
    requires
        c.spec_last_sec() == start,
        c.spec_frame_count() == 0,
        ts.len() < u64::MAX,
        forall|k: int|
            0 <= k < ts.len() ==> start <= #[trigger] ts[k] && ts[k] < start + NANOS_PER_SEC,
    ensures
        ticked_all(c, ts).spec_last_sec() == start,
        ticked_all(c, ts).spec_frame_count() == ts.len(),
        ticked_all(c, ts).spec_fps() == c.spec_fps(),
    decreases ts.len(),
{
    if ts.len() > 0 {
        lemma_window_counts_ticks(c, start, ts.drop_last());
    }
}

/// Law: a one-second window that contains exactly the ticks of `ts` makes
/// the first tick at or past the window's end publish their number as the
/// fps value.
pub proof fn lemma_fps_counts_window(c: Time, start: u64, ts: Seq<u64>, t_cross: u64)
    requires
        c.spec_last_sec() == start,
        c.spec_frame_count() == 0,
        ts.len() < u64::MAX,
        forall|k: int|
            0 <= k < ts.len() ==> start <= #[trigger] ts[k] && ts[k] < start + NANOS_PER_SEC,
        t_cross >= start + NANOS_PER_SEC,
    ensures
        ticked_all(c, ts).ticked(t_cross).spec_fps() == ts.len(),
{
    lemma_window_counts_ticks(c, start, ts);
}

} // verus!
