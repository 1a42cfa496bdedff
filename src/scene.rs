use vstd::prelude::*;
use crate::detonation::Detonation;
use crate::geometry::{Direction, Point};
use crate::missile::{Fate, Missile, Phase};

verus! {

/// The entities still in flight among `fates`, in order.
pub open spec fn survivors(fates: Seq<Fate>) -> Seq<Missile>
    decreases fates.len(),
{
    if fates.len() == 0 {
        seq![]
    } else {
        let rest = survivors(fates.drop_last());
        match fates.last() {
            Fate::Flying(m) => rest.push(m),
            Fate::Detonated(_) => rest,
        }
    }
}

/// The detonations that `fates` bring about, in order.
pub open spec fn blasts(fates: Seq<Fate>) -> Seq<Detonation>
    decreases fates.len(),
{
    if fates.len() == 0 {
        seq![]
    } else {
        let rest = blasts(fates.drop_last());
        match fates.last() {
            Fate::Flying(_) => rest,
            Fate::Detonated(d) => rest.push(d),
        }
    }
}

/// The detonations one tick later: each fades by a tick, and those with no
/// time left are gone.
pub open spec fn faded(ds: Seq<Detonation>) -> Seq<Detonation>
    decreases ds.len(),
{
    if ds.len() == 0 {
        seq![]
    } else {
        let rest = faded(ds.drop_last());
        let d = ds.last().spec_faded();
        if d.remaining > 0 {
            rest.push(d)
        } else {
            rest
        }
    }
}

/// Each entity of a tick either flies on or leaves exactly one detonation.
pub proof fn lemma_each_spent_entity_leaves_one_detonation(fates: Seq<Fate>)
    ensures
        survivors(fates).len() + blasts(fates).len() == fates.len(),
    decreases fates.len(),
{
    if fates.len() > 0 {
        lemma_each_spent_entity_leaves_one_detonation(fates.drop_last());
    }
}

/// Whether `d` is the detonation of an entity that was disengaged and spent in
/// the tick that `fates` record, standing where the entity was, fresh.
pub open spec fn left_by_spent_entity(missiles: Seq<Missile>, fates: Seq<Fate>, d: Detonation) -> bool {
    exists|i: int|
        0 <= i < missiles.len() && #[trigger] fates[i] == Fate::Detonated(d)
            && missiles[i].phase == Phase::Disengaging && d.position == missiles[i].position
            && d.remaining == missiles[i].fuse.blast_lifetime && d.lifetime
            == missiles[i].fuse.blast_lifetime
}

/// Each detonation that a tick brings about stands where a spent entity was at
/// that tick, with the entity's full blast lifetime ahead of it.
pub proof fn lemma_detonations_where_entities_were<
    B: Fn(Point, Point) -> u32,
    F: Fn(u32) -> Direction,
>(
    missiles: Seq<Missile>,
    fates: Seq<Fate>,
    target: Option<Point>,
    ticks_per_second: u32,
    bearing_of: B,
    forward_of: F,
)
    requires
        fates.len() == missiles.len(),
        forall|i: int|
            0 <= i < fates.len() ==> #[trigger] missiles[i].ticked(
                target,
                ticks_per_second,
                bearing_of,
                forward_of,
                fates[i],
            ),
    ensures
        forall|j: int|
            0 <= j < blasts(fates).len() ==> left_by_spent_entity(
                missiles,
                fates,
                #[trigger] blasts(fates)[j],
            ),
    decreases fates.len(),
{
    if fates.len() > 0 {
        let n = fates.len() - 1;
        let (ms, fs) = (missiles.drop_last(), fates.drop_last());
        assert forall|i: int| 0 <= i < fs.len() implies #[trigger] ms[i].ticked(
            target,
            ticks_per_second,
            bearing_of,
            forward_of,
            fs[i],
        ) by {
            assert(missiles[i].ticked(target, ticks_per_second, bearing_of, forward_of, fates[i]));
        }
        lemma_detonations_where_entities_were(ms, fs, target, ticks_per_second, bearing_of, forward_of);
        assert(missiles[n].ticked(target, ticks_per_second, bearing_of, forward_of, fates[n]));
        assert forall|j: int| 0 <= j < blasts(fates).len() implies left_by_spent_entity(
            missiles,
            fates,
            #[trigger] blasts(fates)[j],
        ) by {
            if j < blasts(fs).len() {
                assert(left_by_spent_entity(ms, fs, blasts(fs)[j]));
                let i = choose|i: int|
                    0 <= i < ms.len() && #[trigger] fs[i] == Fate::Detonated(blasts(fs)[j])
                        && ms[i].phase == Phase::Disengaging && blasts(fs)[j].position
                        == ms[i].position && blasts(fs)[j].remaining == ms[i].fuse.blast_lifetime
                        && blasts(fs)[j].lifetime == ms[i].fuse.blast_lifetime;
                assert(fates[i] == fs[i]);
            } else {
                assert(fates[n] == Fate::Detonated(blasts(fates)[j]));
            }
        }
    }
}

/// Everything the homing logic owns: the entities in flight, the detonations
/// on show, and the fixed step of the clock.
pub struct Scene {
    pub missiles: Vec<Missile>,
    pub detonations: Vec<Detonation>,
    pub ticks_per_second: u32,
}

impl Scene {
    /// Every detonation's countdown lies within its lifetime.
    pub open spec fn wf(&self) -> bool {
        forall|i: int| 0 <= i < self.detonations@.len() ==> #[trigger] self.detonations@[i].wf()
    }

    /// An empty scene on a clock of `ticks_per_second` ticks a second.
    pub fn new(ticks_per_second: u32) -> (r: Scene)
        ensures
            r.missiles@ == Seq::<Missile>::empty(),
            r.detonations@ == Seq::<Detonation>::empty(),
            r.ticks_per_second == ticks_per_second,
            r.wf(),
    {
        Scene { missiles: Vec::new(), detonations: Vec::new(), ticks_per_second }
    }

    /// Adds an entity in flight; it takes part from the next tick on.
    pub fn launch(&mut self, missile: Missile)
        ensures
            final(self).missiles@ == old(self).missiles@.push(missile),
            final(self).detonations@ == old(self).detonations@,
            final(self).ticks_per_second == old(self).ticks_per_second,
            old(self).wf() ==> final(self).wf(),
    {
        self.missiles.push(missile);
    }

    /// Runs one tick. Each entity in flight takes its tick against the target,
    /// in order; those spent leave and their detonations are made. Then the
    /// detonations already on show fade, and the new ones join them after, with
    /// their full lifetime. Nothing that one entity does this tick is seen by
    /// another before the tick ends.
    pub fn step<B: Fn(Point, Point) -> u32, F: Fn(u32) -> Direction>(
        &mut self,
        target: Option<Point>,
        bearing_of: &B,
        forward_of: &F,
    )
        requires
            old(self).ticks_per_second > 0,
            forall|a: Point, b: Point| bearing_of.requires((a, b)),
            forall|h: u32| forward_of.requires((h,)),
        ensures
            final(self).ticks_per_second == old(self).ticks_per_second,
            old(self).wf() ==> final(self).wf(),
            exists|fates: Seq<Fate>|
                {
                    &&& fates.len() == old(self).missiles@.len()
                    &&& forall|i: int|
                        0 <= i < fates.len() ==> #[trigger] old(self).missiles@[i].ticked(
                            target,
                            old(self).ticks_per_second,
                            *bearing_of,
                            *forward_of,
                            fates[i],
                        )
                    &&& final(self).missiles@ == survivors(fates)
                    &&& final(self).detonations@ == faded(old(self).detonations@) + blasts(fates)
                },
    {
        let ghost fates: Seq<Fate> = seq![];
        let mut flying: Vec<Missile> = Vec::new();
        let mut pending: Vec<Detonation> = Vec::new();
        let mut i: usize = 0;
        while i < self.missiles.len()
            invariant
                self.ticks_per_second > 0,
                forall|a: Point, b: Point| bearing_of.requires((a, b)),
                forall|h: u32| forward_of.requires((h,)),
                i <= self.missiles@.len(),
                fates.len() == i,
                forall|j: int|
                    0 <= j < i ==> #[trigger] self.missiles@[j].ticked(
                        target,
                        self.ticks_per_second,
                        *bearing_of,
                        *forward_of,
                        fates[j],
                    ),
                flying@ == survivors(fates),
                pending@ == blasts(fates),
                forall|k: int| 0 <= k < pending@.len() ==> #[trigger] pending@[k].wf(),
            decreases self.missiles@.len() - i,
        {
            let fate = self.missiles[i].tick(target, self.ticks_per_second, bearing_of, forward_of);
            proof {
                let ghost before = fates;
                fates = fates.push(fate);
                assert(fates.drop_last() == before);
            }
            match fate {
                Fate::Flying(m) => flying.push(m),
                Fate::Detonated(d) => pending.push(d),
            }
            i = i + 1;
        }
        let mut shown: Vec<Detonation> = Vec::new();
        let mut j: usize = 0;
        while j < self.detonations.len()
            invariant
                j <= self.detonations@.len(),
                shown@ == faded(self.detonations@.take(j as int)),
                self.wf() ==> forall|k: int| 0 <= k < shown@.len() ==> #[trigger] shown@[k].wf(),
            decreases self.detonations@.len() - j,
        {
            let mut d = self.detonations[j];
            let showing = d.fade();
            proof {
                assert(self.detonations@.take(j + 1).drop_last() == self.detonations@.take(j as int));
            }
            if showing {
                shown.push(d);
            }
            j = j + 1;
        }
        proof {
            assert(self.detonations@.take(j as int) == self.detonations@);
        }
        let ghost faded_part = shown@;
        let mut k: usize = 0;
        while k < pending.len()
            invariant
                k <= pending@.len(),
                shown@ == faded_part + pending@.take(k as int),
                forall|n: int| 0 <= n < pending@.len() ==> #[trigger] pending@[n].wf(),
                self.wf() ==> forall|n: int| 0 <= n < shown@.len() ==> #[trigger] shown@[n].wf(),
            decreases pending@.len() - k,
        {
            shown.push(pending[k]);
            proof {
                assert(pending@.take(k + 1) == pending@.take(k as int).push(pending@[k as int]));
            }
            k = k + 1;
        }
        proof {
            assert(pending@.take(k as int) == pending@);
        }
        self.missiles = flying;
        self.detonations = shown;
    }

    /// Whether nothing is left in flight or on show.
    pub fn is_quiet(&self) -> (r: bool)
        ensures
            r == (self.missiles@.len() == 0 && self.detonations@.len() == 0),
    {
        self.missiles.len() == 0 && self.detonations.len() == 0
    }
}

} // verus!
