//! The cosmetic spinner shown while a refresh is loading.
//!
//! The spinner has no bearing on correctness; it only counts render
//! ticks and advances its animation one step every sixth tick.  The
//! counters wrap around at their limit instead of stopping the loop.

use vstd::prelude::*;

verus! {

/// The spinner state: how many ticks have passed and how many animation
/// steps have been taken.
#[derive(Clone, Copy, Debug, PartialEq, Eq, Structural)]
pub struct Loader {
    pub tick: u64,
    pub steps: u64,
}

/// One tick of the spinner: the tick counter advances, and every sixth
/// tick the animation advances one step.  Both counters wrap at their
/// limit.
pub open spec fn spec_calc_next(l: Loader) -> Loader {
    let t: u64 = if l.tick == u64::MAX {
        0
    } else {
        (l.tick + 1) as u64
    };
    let s: u64 = if t % 6 == 0 {
        if l.steps == u64::MAX {
            0
        } else {
            (l.steps + 1) as u64
        }
    } else {
        l.steps
    };
    Loader { tick: t, steps: s }
}

impl Loader {
    /// A spinner at rest: no ticks, no steps.
    pub fn new() -> (r: Self)
        ensures
            r == (Loader { tick: 0, steps: 0 }),
    {
        Loader { tick: 0, steps: 0 }
    }

    /// Counts one render tick and advances the animation every sixth
    /// tick.
    pub fn calc_next(&mut self)
        ensures
            *final(self) == spec_calc_next(*old(self)),
    {
        self.tick = if self.tick == u64::MAX {
            0
        } else {
            self.tick + 1
        };
        if self.tick % 6 == 0 {
            self.steps = if self.steps == u64::MAX {
                0
            } else {
                self.steps + 1
            };
        }
    }
}

impl Default for Loader {
    /// A spinner at rest: no ticks, no steps.
    fn default() -> (r: Self)
        ensures
            r == (Loader { tick: 0, steps: 0 }),
    {
        Loader::new()
    }
}

} // verus!
