use vstd::prelude::*;
use crate::angle::{
    angle_error, rotate, spec_angle_error, spec_rotated, spec_turn, turn_toward, HALF_TURN, TURN,
};
use crate::detonation::Detonation;
use crate::geometry::{advance, spec_advanced, spec_within, within_reach, Direction, Point};

verus! {

/// Whether a homing entity still follows its target.
#[derive(Clone, Copy, Debug, PartialEq, Eq, Structural)]
pub enum Phase {
    /// Steering towards the target at full speed.
    Tracking,
    /// Heading frozen, slowing down until spent.
    Disengaging,
}

/// How a homing entity ends: when it lets go of the target, how fast it slows
/// down afterwards, and how long its detonation lasts.
#[derive(Clone, Copy, Debug, PartialEq, Eq, Structural)]
pub struct Fuse {
    /// Distance to the target at or under which tracking stops.
    pub proximity: u32,
    /// Speed lost in each tick once tracking has stopped.
    pub decay_rate: u64,
    /// Ticks that the detonation lasts.
    pub blast_lifetime: u64,
}

/// A guided projectile.
#[derive(Clone, Copy, Debug, PartialEq, Eq, Structural)]
pub struct Missile {
    pub position: Point,
    /// Binary angle; 0 faces +Y, a quarter turn faces -X.
    pub heading: u32,
    /// The largest rotation in one tick, in angle units.
    pub turn_rate: u32,
    /// Length per second.
    pub speed: u64,
    pub fuse: Fuse,
    pub phase: Phase,
}

/// What one tick leaves of a homing entity.
#[derive(Clone, Copy, Debug, PartialEq, Eq, Structural)]
pub enum Fate {
    /// It is still in flight, in this state.
    Flying(Missile),
    /// It is spent and this detonation takes its place.
    Detonated(Detonation),
}

impl Missile {
    /// The heading after one steering step towards a target at `bearing`.
    pub open spec fn spec_steered(self, bearing: u32) -> u32 {
        spec_rotated(
            self.heading,
            spec_turn(spec_angle_error(bearing, self.heading), self.turn_rate),
        )
    }

    /// One tick of this entity, given the target (if there is one), the clock,
    /// and the caller's trigonometry, ended in `fate`.
    ///
    /// With no target nothing changes. While tracking, a target within the
    /// proximity ends tracking: the heading stays and the entity moves on at its
    /// speed. Otherwise it steers towards the bearing of the target and moves
    /// along its new heading; the bearing is asked for only then, so never for
    /// a target at the entity's own position. Once disengaged it loses `decay_rate` of speed each
    /// tick and moves on at the lowered speed; a tick that would leave it no
    /// speed spends it, and a detonation with its full lifetime appears where it is.
    pub open spec fn ticked<B: Fn(Point, Point) -> u32, F: Fn(u32) -> Direction>(
        self,
        target: Option<Point>,
        ticks_per_second: u32,
        bearing_of: B,
        forward_of: F,
        fate: Fate,
    ) -> bool {
        match target {
            None => fate == Fate::Flying(self),
            Some(t) => match self.phase {
                Phase::Tracking => if spec_within(self.position, t, self.fuse.proximity) {
                    exists|d: Direction|
                        #[trigger] forward_of.ensures((self.heading,), d) && fate == Fate::Flying(
                            Missile {
                                position: spec_advanced(self.position, d, self.speed, ticks_per_second),
                                phase: Phase::Disengaging,
                                ..self
                            },
                        )
                } else {
                    exists|b: u32, d: Direction|
                        #[trigger] bearing_of.ensures((self.position, t), b)
                            && #[trigger] forward_of.ensures((self.spec_steered(b),), d)
                            && fate == Fate::Flying(
                            Missile {
                                position: spec_advanced(self.position, d, self.speed, ticks_per_second),
                                heading: self.spec_steered(b),
                                ..self
                            },
                        )
                },
                Phase::Disengaging => if self.speed <= self.fuse.decay_rate {
                    fate == Fate::Detonated(
                        Detonation {
                            position: self.position,
                            remaining: self.fuse.blast_lifetime,
                            lifetime: self.fuse.blast_lifetime,
                        },
                    )
                } else {
                    exists|d: Direction|
                        #[trigger] forward_of.ensures((self.heading,), d) && fate == Fate::Flying(
                            Missile {
                                position: spec_advanced(
                                    self.position,
                                    d,
                                    (self.speed - self.fuse.decay_rate) as u64,
                                    ticks_per_second,
                                ),
                                speed: (self.speed - self.fuse.decay_rate) as u64,
                                ..self
                            },
                        )
                },
            },
        }
    }

    /// A tracking entity.
    pub fn new(position: Point, heading: u32, turn_rate: u32, speed: u64, fuse: Fuse) -> (r: Missile)
        ensures
            r == (Missile { position, heading, turn_rate, speed, fuse, phase: Phase::Tracking }),
    {
        Missile { position, heading, turn_rate, speed, fuse, phase: Phase::Tracking }
    }

    pub fn is_tracking(&self) -> (r: bool)
        ensures
            r == (self.phase == Phase::Tracking),
    {
        match self.phase {
            Phase::Tracking => true,
            Phase::Disengaging => false,
        }
    }

    /// One steering step towards a target at `bearing`: turns by the angular
    /// error, but by no more than `turn_rate`.
    pub fn steer(&self, bearing: u32) -> (r: u32)
        ensures
            r == self.spec_steered(bearing),
            -(self.turn_rate as int) <= spec_angle_error(r, self.heading) <= self.turn_rate,
            bearing == self.heading ==> r == self.heading,
    {
        let error = angle_error(bearing, self.heading);
        let by = turn_toward(error, self.turn_rate);
        proof {
            lemma_rotation_measured(self.heading, by as int);
        }
        rotate(self.heading, by)
    }

    /// Runs one tick of this entity; see `ticked` for what happens. The
    /// rotation in a tick never exceeds `turn_rate`; a disengaged entity never
    /// tracks again and loses exactly `decay_rate` of speed in each tick it
    /// survives; a detonation starts fresh, where the entity was.
    pub fn tick<B: Fn(Point, Point) -> u32, F: Fn(u32) -> Direction>(
        self,
        target: Option<Point>,
        ticks_per_second: u32,
        bearing_of: &B,
        forward_of: &F,
    ) -> (fate: Fate)
        requires
            ticks_per_second > 0,
            forall|a: Point, b: Point| bearing_of.requires((a, b)),
            forall|h: u32| forward_of.requires((h,)),
        ensures
            self.ticked(target, ticks_per_second, *bearing_of, *forward_of, fate),
            fate is Flying ==> -(self.turn_rate as int) <= spec_angle_error(
                fate->Flying_0.heading,
                self.heading,
            ) <= self.turn_rate,
            self.phase == Phase::Disengaging && fate is Flying ==> fate->Flying_0.phase
                == Phase::Disengaging,
            self.phase == Phase::Disengaging && target is Some && fate is Flying
                ==> fate->Flying_0.speed == self.speed - self.fuse.decay_rate,
            fate is Detonated <==> (self.phase == Phase::Disengaging && target is Some
                && self.speed <= self.fuse.decay_rate),
            fate is Detonated ==> fate->Detonated_0.position == self.position
                && fate->Detonated_0.remaining == fate->Detonated_0.lifetime
                && fate->Detonated_0.lifetime == self.fuse.blast_lifetime,
    {
        proof {
            lemma_rotation_measured(self.heading, 0);
        }
        match target {
            None => Fate::Flying(self),
            Some(t) => match self.phase {
                Phase::Tracking => {
                    if within_reach(self.position, t, self.fuse.proximity) {
                        let d = forward_of(self.heading);
                        let position = advance(self.position, d, self.speed, ticks_per_second);
                        Fate::Flying(Missile { position, phase: Phase::Disengaging, ..self })
                    } else {
                        let b = bearing_of(self.position, t);
                        let heading = self.steer(b);
                        let d = forward_of(heading);
                        let position = advance(self.position, d, self.speed, ticks_per_second);
                        Fate::Flying(Missile { position, heading, ..self })
                    }
                },
                Phase::Disengaging => {
                    if self.speed <= self.fuse.decay_rate {
                        Fate::Detonated(Detonation::new(self.position, self.fuse.blast_lifetime))
                    } else {
                        let speed = self.speed - self.fuse.decay_rate;
                        let d = forward_of(self.heading);
                        let position = advance(self.position, d, speed, ticks_per_second);
                        Fate::Flying(Missile { position, speed, ..self })
                    }
                },
            },
        }
    }
}

/// Turning through `by` and measuring the angle from where one started gives
/// back `by`, for any `by` in `[-HALF_TURN, HALF_TURN)`.
pub proof fn lemma_rotation_measured(heading: u32, by: int)
    requires
        -HALF_TURN <= by < HALF_TURN,
    ensures
        spec_angle_error(spec_rotated(heading, by), heading) == by,
{
    let s = heading as int + by;
    if s < 0 {
        vstd::arithmetic::div_mod::lemma_mod_add_multiples_vanish(s, TURN as int);
        vstd::arithmetic::div_mod::lemma_small_mod((s + TURN) as nat, TURN as nat);
    } else if s >= TURN {
        vstd::arithmetic::div_mod::lemma_mod_sub_multiples_vanish(s, TURN as int);
        vstd::arithmetic::div_mod::lemma_small_mod((s - TURN) as nat, TURN as nat);
    } else {
        vstd::arithmetic::div_mod::lemma_small_mod(s as nat, TURN as nat);
    }
}

/// The angle from `from` to `to` is the one value in `[-HALF_TURN, HALF_TURN)`
/// that equals `to - from` up to whole turns.
pub proof fn lemma_angle_error_unique(to: u32, from: u32, e: int)
    requires
        -HALF_TURN <= e < HALF_TURN,
        (to as int - from as int - e) % (TURN as int) == 0,
    ensures
        spec_angle_error(to, from) == e,
{
    let k = to as int - from as int - e;
    vstd::arithmetic::div_mod::lemma_fundamental_div_mod(k, TURN as int);
    let q = k / (TURN as int);
    assert(-2 < q < 2) by (nonlinear_arith)
        requires
            k == TURN * q,
            -TURN - HALF_TURN < k < TURN + HALF_TURN,
            TURN == 2 * HALF_TURN,
            HALF_TURN > 0,
    ;
}

/// A steering step never overshoots: the target's bearing stays on the side
/// it was on, and the error shrinks by exactly the rotation, which is at most
/// `turn_rate`.
pub proof fn lemma_steering_never_overshoots(m: Missile, bearing: u32)
    ensures
        ({
            let e = spec_angle_error(bearing, m.heading);
            let s = m.spec_steered(bearing);
            &&& -(m.turn_rate as int) <= spec_angle_error(s, m.heading) <= m.turn_rate
            &&& spec_angle_error(bearing, s) == e - spec_turn(e, m.turn_rate)
            &&& e >= 0 ==> 0 <= spec_angle_error(bearing, s) <= e
            &&& e <= 0 ==> e <= spec_angle_error(bearing, s) <= 0
        }),
{
    let e = spec_angle_error(bearing, m.heading);
    let r = spec_turn(e, m.turn_rate);
    let s = m.spec_steered(bearing);
    lemma_rotation_measured(m.heading, r);
    let sum = m.heading as int + r;
    vstd::arithmetic::div_mod::lemma_fundamental_div_mod(sum, TURN as int);
    vstd::arithmetic::div_mod::lemma_mod_multiples_vanish(
        -(sum / (TURN as int)),
        bearing as int - m.heading as int - e,
        TURN as int,
    );
    assert(bearing as int - s as int - (e - r) == (bearing as int - m.heading as int - e) + (TURN as int) * (sum / (TURN as int)));
    vstd::arithmetic::div_mod::lemma_mod_multiples_vanish(
        sum / (TURN as int),
        bearing as int - m.heading as int - e,
        TURN as int,
    );
    lemma_angle_error_unique(bearing, s, e - r);
}

/// An entity that already faces its target does not turn.
pub proof fn lemma_facing_target_keeps_heading(m: Missile, bearing: u32)
    requires
        spec_angle_error(bearing, m.heading) == 0,
    ensures
        m.spec_steered(bearing) == m.heading,
{
    lemma_rotation_measured(m.heading, 0);
    vstd::arithmetic::div_mod::lemma_small_mod(m.heading as nat, TURN as nat);
}

} // verus!
