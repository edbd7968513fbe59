//! The crosshair's cooldown ring under the centre dot.
use vstd::prelude::*;

verus! {

/// What the crosshair shows: while the local player's morph cooldown runs,
/// what remains of it, in nanoseconds.
#[derive(Clone, Copy, Debug, PartialEq, Eq, Structural)]
pub struct Crosshair {
    pub bottom_loader: Option<u128>,
}

impl Crosshair {
    /// A crosshair with no cooldown on it.
    pub fn new() -> (r: Crosshair)
        ensures
            r.bottom_loader is None,
    {
        Crosshair { bottom_loader: None }
    }
}

impl Default for Crosshair {
    fn default() -> (r: Crosshair)
        ensures
            r.bottom_loader is None,
    {
        Crosshair::new()
    }
}

/// Redraws the ring after the crosshair changed. `shown` records whether
/// the ring is up; it follows whether a cooldown runs. When it flips, the ring
/// restarts from empty; otherwise it shows the remaining cooldown. Returns
/// the progress to draw, if any.
pub fn bottom_loader_frame(crosshair: &Crosshair, shown: &mut bool) -> (progress: Option<u128>)
    ensures
        *final(shown) == (crosshair.bottom_loader is Some),
        progress == (if (crosshair.bottom_loader is Some) != *old(shown) {
            Some(0u128)
        } else {
            crosshair.bottom_loader
        }),
{
    let mut progress = crosshair.bottom_loader;
    let loading = crosshair.bottom_loader.is_some();
    if loading != *shown {
        *shown = !*shown;
        progress = Some(0);
    }
    progress
}

} // verus!
