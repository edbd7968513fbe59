//! The clock of a transform tween, and the per-frame update of all tweens.
use vstd::prelude::*;
use crate::time::MAX_DURATION_NANOS;

verus! {

/// How far a tween has run and how long it runs, in nanoseconds. The start
/// and end transforms live with the renderer; the clock decides when the
/// tween ends and how far along it is.
#[derive(Clone, Copy, Debug)]
pub struct TweenClock {
    pub time_nanos: u128,
    pub duration_nanos: u128,
}

/// What the frame update does with a tween's entity.
#[derive(Clone, Copy, Debug, PartialEq, Eq, Structural)]
pub enum TweenAction {
    /// The tween is running: move the transform to `time / duration` of the way.
    Interpolate,
    /// The tween has ended: take the tween off the entity.
    Remove,
    /// The tween has ended and its entity is marked to go: despawn it.
    Despawn,
}

impl TweenClock {
    /// A clock that has not started, with a duration of zero.
    pub fn new() -> (r: TweenClock)
        ensures
            r.time_nanos == 0,
            r.duration_nanos == 0,
    {
        TweenClock { time_nanos: 0, duration_nanos: 0 }
    }

    /// A clock that has not started and runs for `duration_nanos`.
    pub fn with_duration(duration_nanos: u128) -> (r: TweenClock)
        ensures
            r.time_nanos == 0,
            r.duration_nanos == duration_nanos,
    {
        TweenClock { time_nanos: 0, duration_nanos }
    }

    /// The tween ends in a frame of `delta_nanos`: its time passes its duration.
    pub open spec fn ends_after(self, delta_nanos: u128) -> bool {
        self.time_nanos + delta_nanos > self.duration_nanos
    }

    /// Adds a frame of `delta_nanos`; returns whether the tween has ended.
    pub fn advance(&mut self, delta_nanos: u128) -> (ended: bool)
        requires
            old(self).time_nanos + delta_nanos <= MAX_DURATION_NANOS,
        ensures
            final(self).time_nanos == old(self).time_nanos + delta_nanos,
            final(self).duration_nanos == old(self).duration_nanos,
            ended == old(self).ends_after(delta_nanos),
    {
        self.time_nanos = self.time_nanos + delta_nanos;
        self.time_nanos > self.duration_nanos
    }
}

impl Default for TweenClock {
    fn default() -> (r: TweenClock)
        ensures
            r.time_nanos == 0,
            r.duration_nanos == 0,
    {
        TweenClock::new()
    }
}

/// The action for a tween that ends: despawn where its entity is so marked,
/// else remove the tween.
pub open spec fn end_action(despawn_on_end: bool) -> TweenAction {
    if despawn_on_end { TweenAction::Despawn } else { TweenAction::Remove }
}

/// The action for a tween in this frame.
pub open spec fn frame_action(clock: TweenClock, despawn_on_end: bool, delta_nanos: u128) -> TweenAction {
    if clock.ends_after(delta_nanos) { end_action(despawn_on_end) } else { TweenAction::Interpolate }
}

/// No tween before index `n` ends in this frame.
pub open spec fn none_end_before(tweens: Seq<TweenClock>, delta_nanos: u128, n: int) -> bool {
    forall|j: int| 0 <= j < n ==> !(#[trigger] tweens[j]).ends_after(delta_nanos)
}

/// Advances the tweens of one frame in order. The update stops at the first
/// tween that ends: that one gets its end action, and the tweens after it are
/// left as they are, with no action, until the next frame. Returns the actions
/// of the tweens that were visited, in order.
pub fn update_tweens(tweens: &mut Vec<TweenClock>, despawn_on_end: &Vec<bool>, delta_nanos: u128) -> (actions: Vec<TweenAction>)
    requires
        despawn_on_end.len() == old(tweens).len(),
        forall|i: int|
            0 <= i < old(tweens).len() && none_end_before(old(tweens)@, delta_nanos, i)
                ==> #[trigger] old(tweens)[i].time_nanos + delta_nanos <= MAX_DURATION_NANOS,
    ensures
        final(tweens).len() == old(tweens).len(),
        actions.len() <= old(tweens).len(),
        none_end_before(old(tweens)@, delta_nanos, actions.len() - 1),
        actions.len() < old(tweens).len() ==> actions.len() > 0 && old(tweens)[actions.len() - 1].ends_after(delta_nanos),
        forall|i: int| 0 <= i < actions.len() ==> #[trigger] actions[i] == frame_action(old(tweens)[i], despawn_on_end[i], delta_nanos),
        forall|i: int| 0 <= i < actions.len() ==> (#[trigger] final(tweens)[i]).time_nanos == old(tweens)[i].time_nanos + delta_nanos
            && final(tweens)[i].duration_nanos == old(tweens)[i].duration_nanos,
        forall|i: int| actions.len() <= i < old(tweens).len() ==> #[trigger] final(tweens)[i] == old(tweens)[i],
{
    let ghost before = tweens@;
    let n = tweens.len();
    let mut actions: Vec<TweenAction> = Vec::new();
    let mut i: usize = 0;
    while i < n
        invariant
            n == tweens.len(),
            n == before.len(),
            before == old(tweens)@,
            despawn_on_end.len() == n,
            i <= n,
            actions.len() == i,
            none_end_before(before, delta_nanos, i as int),
            forall|k: int|
                0 <= k < n && none_end_before(before, delta_nanos, k)
                    ==> #[trigger] before[k].time_nanos + delta_nanos <= MAX_DURATION_NANOS,
            forall|k: int| 0 <= k < i ==> #[trigger] actions[k] == frame_action(before[k], despawn_on_end[k], delta_nanos),
            forall|k: int| 0 <= k < i ==> (#[trigger] tweens@[k]).time_nanos == before[k].time_nanos + delta_nanos
                && tweens@[k].duration_nanos == before[k].duration_nanos,
            forall|k: int| i <= k < n ==> #[trigger] tweens@[k] == before[k],
        decreases n - i,
    {
        let mut clock = tweens[i];
        let ended = clock.advance(delta_nanos);
        tweens.set(i, clock);
        if ended {
            let action = if despawn_on_end[i] { TweenAction::Despawn } else { TweenAction::Remove };
            actions.push(action);
            return actions;
        }
        actions.push(TweenAction::Interpolate);
        i = i + 1;
    }
    actions
}

} // verus!
