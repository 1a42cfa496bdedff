use homing::angle::{angle_error, rotate, turn_toward, HALF_TURN, TURN};
use homing::detonation::{Detonation, FULL_OPACITY};
use homing::geometry::{advance, within_reach, Direction, Point, DIRECTION_SCALE};
use homing::missile::{Fate, Fuse, Missile, Phase};
use homing::scene::Scene;

const QUARTER_TURN: u32 = 0x4000_0000;
const TPS: u32 = 60;

fn bearing_of(from: Point, to: Point) -> u32 {
    let dx = (to.x - from.x) as f64;
    let dy = (to.y - from.y) as f64;
    let turns = (-dx).atan2(dy) / (2.0 * std::f64::consts::PI);
    let units = (turns * TURN as f64).round() as i64;
    units.rem_euclid(TURN) as u32
}

fn forward_of(heading: u32) -> Direction {
    let theta = heading as f64 / TURN as f64 * 2.0 * std::f64::consts::PI;
    let scale = DIRECTION_SCALE as f64;
    Direction::new((-theta.sin() * scale).round() as i64, (theta.cos() * scale).round() as i64)
}

fn fuse() -> Fuse {
    Fuse { proximity: 100_000, decay_rate: 2_500, blast_lifetime: 90 }
}

fn flying(fate: Fate) -> Missile {
    match fate {
        Fate::Flying(m) => m,
        Fate::Detonated(d) => panic!("unexpected detonation at {:?}", d.position),
    }
}

#[test]
fn first_tick_turns_a_quarter_and_advances_three_units() {
    let m = Missile::new(Point::new(-200_000, 0), 0, QUARTER_TURN, 180_000, fuse());
    let target = Point::new(250_000, -250_000);
    let m = flying(m.tick(Some(target), TPS, &bearing_of, &forward_of));
    // The target lies about 119 degrees clockwise: the turn stops at a quarter.
    assert_eq!(m.heading, 3 * QUARTER_TURN);
    assert_eq!(m.position, Point::new(-197_000, 0));
    assert_eq!(m.phase, Phase::Tracking);
    assert_eq!(m.speed, 180_000);
}

#[test]
fn small_error_is_closed_in_one_tick() {
    let m = Missile::new(Point::new(0, 0), 0, QUARTER_TURN, 60_000, fuse());
    let target = Point::new(-500_000, 500_000);
    let b = bearing_of(m.position, target);
    assert_eq!(b, QUARTER_TURN / 2);
    let n = flying(m.tick(Some(target), TPS, &bearing_of, &forward_of));
    assert_eq!(n.heading, b);
    let expected = advance(m.position, forward_of(b), 60_000, TPS);
    assert_eq!(n.position, expected);
    assert_eq!(n.position, Point::new(-707, 707));
}

#[test]
fn rotation_per_tick_never_exceeds_turn_rate() {
    let rate: u32 = 1_000_000;
    let target = Point::new(0, 0);
    for k in 0..16u32 {
        let heading = k.wrapping_mul(0x1000_0000).wrapping_add(12_345);
        let m = Missile::new(Point::new(0, -1_000_000), heading, rate, 10_000, fuse());
        let n = flying(m.tick(Some(target), TPS, &bearing_of, &forward_of));
        let turned = angle_error(n.heading, m.heading);
        assert!(turned.abs() <= rate as i64);
        let before = angle_error(bearing_of(m.position, target), m.heading);
        if before.abs() > rate as i64 {
            assert_eq!(turned.abs(), rate as i64);
            assert_eq!(turned.signum(), before.signum());
        }
    }
}

#[test]
fn target_straight_behind_turns_clockwise() {
    let m = Missile::new(Point::new(0, 0), 0, 1_000, 0, fuse());
    let target = Point::new(0, -1_000_000);
    assert_eq!(bearing_of(m.position, target), HALF_TURN as u32);
    let n = flying(m.tick(Some(target), TPS, &bearing_of, &forward_of));
    assert_eq!(n.heading, (TURN - 1_000) as u32);
}

#[test]
fn facing_the_target_keeps_the_heading_exactly() {
    let m = Missile::new(Point::new(0, 0), 0, QUARTER_TURN, 60_000, fuse());
    let target = Point::new(0, 900_000);
    assert_eq!(m.steer(0), 0);
    let n = flying(m.tick(Some(target), TPS, &bearing_of, &forward_of));
    assert_eq!(n.heading, 0);
    assert_eq!(n.position, Point::new(0, 1_000));
}

#[test]
fn reaching_the_proximity_exactly_stops_tracking() {
    let m = Missile::new(Point::new(0, 0), QUARTER_TURN, QUARTER_TURN, 60_000, fuse());
    let target = Point::new(60_000, 80_000);
    let n = flying(m.tick(Some(target), TPS, &bearing_of, &forward_of));
    assert_eq!(n.phase, Phase::Disengaging);
    assert!(!n.is_tracking());
    // Steering is frozen: the heading stays although the target is elsewhere.
    assert_eq!(n.heading, QUARTER_TURN);
    assert_eq!(n.speed, 60_000);
    assert_eq!(n.position, Point::new(-1_000, 0));
    // Decay begins with the next tick.
    let o = flying(n.tick(Some(target), TPS, &bearing_of, &forward_of));
    assert_eq!(o.speed, 57_500);
    assert_eq!(o.heading, QUARTER_TURN);
}

#[test]
fn just_outside_the_proximity_keeps_tracking() {
    let m = Missile::new(Point::new(0, 0), 0, QUARTER_TURN, 60_000, fuse());
    let target = Point::new(60_000, 80_001);
    let n = flying(m.tick(Some(target), TPS, &bearing_of, &forward_of));
    assert_eq!(n.phase, Phase::Tracking);
}

#[test]
fn speed_equal_to_decay_detonates_after_one_decay_tick() {
    let mut m = Missile::new(Point::new(4_000, -3_000), 0, QUARTER_TURN, 2_500, fuse());
    m.phase = Phase::Disengaging;
    let target = Point::new(1_000_000, 1_000_000);
    match m.tick(Some(target), TPS, &bearing_of, &forward_of) {
        Fate::Detonated(d) => {
            assert_eq!(d.position, Point::new(4_000, -3_000));
            assert_eq!(d.remaining, 90);
            assert_eq!(d.lifetime, 90);
            assert_eq!(d.opacity(), FULL_OPACITY);
        }
        Fate::Flying(_) => panic!("expected a detonation"),
    }
}

#[test]
fn disengaged_speed_drops_by_the_decay_rate_each_tick() {
    let mut m = Missile::new(Point::new(0, 0), 0, QUARTER_TURN, 10_000, fuse());
    m.phase = Phase::Disengaging;
    let target = Point::new(0, 50);
    let mut speeds = Vec::new();
    loop {
        match m.tick(Some(target), TPS, &bearing_of, &forward_of) {
            Fate::Flying(n) => {
                assert_eq!(n.speed, m.speed - 2_500);
                assert_eq!(n.phase, Phase::Disengaging);
                speeds.push(n.speed);
                m = n;
            }
            Fate::Detonated(d) => {
                assert_eq!(d.position, m.position);
                break;
            }
        }
    }
    assert_eq!(speeds, vec![7_500, 5_000, 2_500]);
}

#[test]
fn disengaged_entity_never_tracks_again() {
    let mut m = Missile::new(Point::new(0, 0), 0, QUARTER_TURN, 1_000_000, fuse());
    m.phase = Phase::Disengaging;
    m.fuse.decay_rate = 1;
    let far = Point::new(5_000_000, -5_000_000);
    for _ in 0..20 {
        m = flying(m.tick(Some(far), TPS, &bearing_of, &forward_of));
        assert_eq!(m.phase, Phase::Disengaging);
        assert_eq!(m.heading, 0);
    }
}

#[test]
fn missing_target_changes_nothing() {
    let m = Missile::new(Point::new(7, 8), 5, QUARTER_TURN, 60_000, fuse());
    assert_eq!(m.tick(None, TPS, &bearing_of, &forward_of), Fate::Flying(m));
    let mut d = m;
    d.phase = Phase::Disengaging;
    d.speed = 1;
    assert_eq!(d.tick(None, TPS, &bearing_of, &forward_of), Fate::Flying(d));
}

#[test]
fn angle_error_wraps_into_half_open_range() {
    assert_eq!(angle_error(10, 5), 5);
    assert_eq!(angle_error(5, 10), -5);
    assert_eq!(angle_error(0, u32::MAX), 1);
    assert_eq!(angle_error(u32::MAX, 0), -1);
    assert_eq!(angle_error(0x8000_0000, 0), -HALF_TURN);
    assert_eq!(angle_error(0, 0x8000_0000), -HALF_TURN);
    assert_eq!(angle_error(0x7fff_ffff, 0), HALF_TURN - 1);
}

#[test]
fn turn_toward_is_limited_by_rate_and_error() {
    assert_eq!(turn_toward(0, 100), 0);
    assert_eq!(turn_toward(40, 100), 40);
    assert_eq!(turn_toward(400, 100), 100);
    assert_eq!(turn_toward(-40, 100), -40);
    assert_eq!(turn_toward(-400, 100), -100);
    assert_eq!(turn_toward(-HALF_TURN, u32::MAX), -HALF_TURN);
}

#[test]
fn rotate_wraps_around_a_full_turn() {
    assert_eq!(rotate(10, 5), 15);
    assert_eq!(rotate(10, -20), u32::MAX - 9);
    assert_eq!(rotate(u32::MAX, 1), 0);
    assert_eq!(rotate(0, HALF_TURN), 0x8000_0000);
    assert_eq!(rotate(0x8000_0000, HALF_TURN), 0);
}

#[test]
fn within_reach_includes_the_boundary() {
    let o = Point::new(0, 0);
    assert!(within_reach(o, Point::new(3, 4), 5));
    assert!(!within_reach(o, Point::new(3, 5), 5));
    assert!(within_reach(o, o, 0));
    assert!(!within_reach(Point::new(i64::MIN, 0), Point::new(i64::MAX, 0), u32::MAX));
    assert!(within_reach(Point::new(-1, -1), Point::new(-1, u32::MAX as i64 - 1), u32::MAX));
}

#[test]
fn advance_rounds_towards_zero_and_saturates() {
    let half = DIRECTION_SCALE / 2;
    // 90 length per second, half a unit direction, 60 ticks: 0.75 per tick.
    assert_eq!(advance(Point::new(0, 0), Direction::new(half, -half), 90, 60), Point::new(0, 0));
    assert_eq!(advance(Point::new(0, 0), Direction::new(half, -half), 120, 60), Point::new(1, -1));
    assert_eq!(advance(Point::new(0, 0), Direction::new(DIRECTION_SCALE, 0), 180, 60), Point::new(3, 0));
    assert_eq!(
        advance(Point::new(i64::MAX - 1, i64::MIN + 1), Direction::new(DIRECTION_SCALE, -DIRECTION_SCALE), 600, 60),
        Point::new(i64::MAX, i64::MIN)
    );
}

#[test]
fn detonation_fades_out_over_its_lifetime() {
    let mut d = Detonation::new(Point::new(1, 2), 4);
    assert_eq!(d.opacity(), 1_000);
    assert!(d.fade());
    assert_eq!(d.opacity(), 750);
    assert!(d.fade());
    assert!(d.fade());
    assert_eq!(d.opacity(), 250);
    assert!(!d.fade());
    assert_eq!(d.opacity(), 0);
    assert!(!d.fade());
    assert_eq!(d.remaining, 0);
    assert_eq!(d.position, Point::new(1, 2));
}

#[test]
fn detonation_replaces_missile_in_the_same_step_at_its_position() {
    let mut scene = Scene::new(TPS);
    let mut spent = Missile::new(Point::new(10, 20), 0, QUARTER_TURN, 2_500, fuse());
    spent.phase = Phase::Disengaging;
    let live = Missile::new(Point::new(-500_000, 0), 0, QUARTER_TURN, 60_000, fuse());
    scene.launch(spent);
    scene.launch(live);
    scene.step(Some(Point::new(500_000, 0)), &bearing_of, &forward_of);
    assert_eq!(scene.missiles.len(), 1);
    assert_eq!(scene.missiles[0].position, Point::new(-499_000, 0));
    assert_eq!(scene.missiles[0].heading, 3 * QUARTER_TURN);
    assert_eq!(scene.detonations, vec![Detonation::new(Point::new(10, 20), 90)]);
}

#[test]
fn scene_detonations_fade_and_leave() {
    let mut scene = Scene::new(TPS);
    let mut m = Missile::new(Point::new(0, 0), 0, QUARTER_TURN, 2_500, fuse());
    m.phase = Phase::Disengaging;
    m.fuse.blast_lifetime = 2;
    scene.launch(m);
    scene.step(Some(Point::new(0, 0)), &bearing_of, &forward_of);
    assert_eq!(scene.detonations[0].remaining, 2);
    scene.step(Some(Point::new(0, 0)), &bearing_of, &forward_of);
    assert_eq!(scene.detonations[0].remaining, 1);
    assert_eq!(scene.detonations[0].opacity(), 500);
    scene.step(None, &bearing_of, &forward_of);
    assert!(scene.is_quiet());
}

#[test]
fn homing_run_ends_in_a_detonation_near_the_target() {
    let mut scene = Scene::new(TPS);
    scene.launch(Missile::new(Point::new(0, 400_000), HALF_TURN as u32, QUARTER_TURN / 180 * 30, 180_000, fuse()));
    let target = Point::new(250_000, -250_000);
    let mut ticks = 0;
    while scene.detonations.is_empty() {
        scene.step(Some(target), &bearing_of, &forward_of);
        ticks += 1;
        assert!(ticks < 10_000);
    }
    assert!(scene.missiles.is_empty());
    let d = scene.detonations[0];
    assert!(within_reach(d.position, target, 100_000 + 200_000));
    assert_eq!(d.remaining, d.lifetime);
}

