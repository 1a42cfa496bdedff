use vstd::prelude::*;
use crate::geometry::Point;

verus! {

/// Opacity of a fully visible detonation, in thousandths.
pub const FULL_OPACITY: u64 = 1000;

/// The short-lived effect left where a homing entity was spent. It stays where
/// it was made and fades out over `lifetime` ticks.
#[derive(Clone, Copy, Debug, PartialEq, Eq, Structural)]
pub struct Detonation {
    pub position: Point,
    /// Ticks left before the effect is gone.
    pub remaining: u64,
    /// Ticks the effect lasts in all.
    pub lifetime: u64,
}

impl Detonation {
    /// Whether the countdown is within the lifetime it started from.
    pub open spec fn wf(self) -> bool {
        self.remaining <= self.lifetime
    }

    /// The effect one tick later: the countdown drops by one and stops at zero.
    pub open spec fn spec_faded(self) -> Detonation {
        Detonation {
            remaining: if self.remaining > 0 { (self.remaining - 1) as u64 } else { 0 },
            ..self
        }
    }

    /// Opacity in thousandths: the share of the lifetime that is left.
    pub open spec fn spec_opacity(self) -> int {
        if self.lifetime == 0 {
            0
        } else {
            self.remaining * FULL_OPACITY / (self.lifetime as int)
        }
    }

    /// A fresh effect at `position`, with its whole lifetime ahead of it.
    pub fn new(position: Point, lifetime: u64) -> (r: Detonation)
        ensures
            r == (Detonation { position, remaining: lifetime, lifetime }),
            r.wf(),
    {
        Detonation { position, remaining: lifetime, lifetime }
    }

    /// Counts one tick down; returns whether the effect is still showing.
    pub fn fade(&mut self) -> (showing: bool)
        ensures
            *final(self) == old(self).spec_faded(),
            final(self).remaining <= old(self).remaining,
            old(self).wf() ==> final(self).wf(),
            showing == (final(self).remaining > 0),
    {
        if self.remaining > 0 {
            self.remaining = self.remaining - 1;
        }
        self.remaining > 0
    }

    /// Opacity in thousandths of full: `FULL_OPACITY` when fresh, 0 when gone.
    pub fn opacity(&self) -> (r: u64)
        requires
            self.wf(),
        ensures
            r == self.spec_opacity(),
            r <= FULL_OPACITY,
            self.lifetime > 0 && self.remaining == self.lifetime ==> r == FULL_OPACITY,
            self.remaining == 0 ==> r == 0,
    {
        if self.lifetime == 0 {
            0
        } else {
            let ghost (a, b) = (self.remaining as int, self.lifetime as int);
            proof {
                assert(a * 1000 <= b * 1000) by (nonlinear_arith)
                    requires
                        a <= b,
                ;
                vstd::arithmetic::div_mod::lemma_div_is_ordered(a * 1000, b * 1000, b);
                vstd::arithmetic::div_mod::lemma_div_multiples_vanish(1000, b);
            }
            let scaled: u128 = self.remaining as u128 * 1000;
            let r: u128 = scaled / self.lifetime as u128;
            r as u64
        }
    }
}

} // verus!
