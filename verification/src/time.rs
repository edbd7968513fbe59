//! Spans of time in nanoseconds, and the timers built on them: a timer that
//! despawns its entity, a cooldown that runs down, and the laws that relate
//! a run of frames to the total time they cover.
use vstd::prelude::*;

verus! {

/// The longest span that a `std::time::Duration` can hold, in nanoseconds:
/// `u64::MAX` seconds and 999 999 999 nanoseconds.
pub const MAX_DURATION_NANOS: u128 = 18446744073709551615999999999;

/// `a - b`, or 0 where `b` exceeds `a`.
pub open spec fn sat_sub(a: u128, b: u128) -> u128 {
    if a > b { (a - b) as u128 } else { 0u128 }
}

/// The sum of a run of frame lengths.
pub open spec fn total(ds: Seq<u128>) -> int
    decreases ds.len(),
{
    if ds.len() == 0 { 0 } else { total(ds.drop_last()) + ds.last() }
}

/// `a - b` where `b` does not exceed `a`, else 0.
pub fn saturating_sub_nanos(a: u128, b: u128) -> (r: u128)
    ensures
        r == sat_sub(a, b),
{
    if a > b { a - b } else { 0 }
}

/// A timer that despawns its entity once more than `duration_nanos` has
/// passed.
#[derive(Clone, Copy, Debug)]
pub struct DespawnOnTime {
    pub elapsed_nanos: u128,
    pub duration_nanos: u128,
}

impl DespawnOnTime {
    /// A fresh timer for `duration_nanos`, with nothing elapsed yet.
    pub fn new(duration_nanos: u128) -> (r: DespawnOnTime)
        ensures
            r.duration_nanos == duration_nanos,
            r.elapsed_nanos == 0,
    {
        DespawnOnTime { duration_nanos, elapsed_nanos: 0 }
    }

    /// Adds a frame of `delta_nanos`; returns whether the entity is due to be
    /// despawned, that is whether the elapsed time now exceeds the duration.
    /// The elapsed time must stay within what a `Duration` holds.
    pub fn tick(&mut self, delta_nanos: u128) -> (despawn: bool)
        requires
            old(self).elapsed_nanos + delta_nanos <= MAX_DURATION_NANOS,
        ensures
            final(self).elapsed_nanos == old(self).elapsed_nanos + delta_nanos,
            final(self).duration_nanos == old(self).duration_nanos,
            despawn == (final(self).elapsed_nanos > final(self).duration_nanos),
    {
        self.elapsed_nanos = self.elapsed_nanos + delta_nanos;
        self.elapsed_nanos > self.duration_nanos
    }
}

/// A cooldown that runs down to zero; at zero it is over.
#[derive(Clone, Copy, Debug)]
pub struct Cooldown {
    pub remaining_nanos: u128,
}

/// What remains of a cooldown of `remaining` after a run of frames.
pub open spec fn run_down(remaining: u128, ds: Seq<u128>) -> u128
    decreases ds.len(),
{
    if ds.len() == 0 { remaining } else { sat_sub(run_down(remaining, ds.drop_last()), ds.last()) }
}

impl Cooldown {
    /// A cooldown of `remaining_nanos`.
    pub fn new(remaining_nanos: u128) -> (r: Cooldown)
        ensures
            r.remaining_nanos == remaining_nanos,
    {
        Cooldown { remaining_nanos }
    }

    /// Runs the cooldown down by a frame of `delta_nanos`, stopping at zero;
    /// returns whether it is over.
    pub fn tick(&mut self, delta_nanos: u128) -> (over: bool)
        ensures
            final(self).remaining_nanos == sat_sub(old(self).remaining_nanos, delta_nanos),
            over == (final(self).remaining_nanos == 0),
    {
        self.remaining_nanos = saturating_sub_nanos(self.remaining_nanos, delta_nanos);
        self.remaining_nanos == 0
    }
}

/// A cooldown run down by a run of frames holds its length less the total
/// time of the frames, and zero once that total reaches its length.
pub proof fn cooldown_runs_down_by_total(remaining: u128, ds: Seq<u128>)
    ensures
        run_down(remaining, ds) == (if total(ds) >= remaining { 0int } else { remaining - total(ds) }),
    decreases ds.len(),
{
    if ds.len() > 0 {
        cooldown_runs_down_by_total(remaining, ds.drop_last());
        total_is_nonnegative(ds.drop_last());
    }
}

/// A cooldown is over exactly when the frames that ran it down add up to at
/// least its length.
pub proof fn cooldown_over_iff_total_reaches_length(remaining: u128, ds: Seq<u128>)
    ensures
        (run_down(remaining, ds) == 0) <==> (total(ds) >= remaining),
{
    cooldown_runs_down_by_total(remaining, ds);
}

/// The sum of frame lengths is never negative.
proof fn total_is_nonnegative(ds: Seq<u128>)
    ensures
        total(ds) >= 0,
    decreases ds.len(),
{
    if ds.len() > 0 {
        total_is_nonnegative(ds.drop_last());
    }
}

} // verus!
