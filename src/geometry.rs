use vstd::prelude::*;

verus! {

/// Length of a unit direction: a direction's components are scaled by this.
pub const DIRECTION_SCALE: i64 = 0x4000_0000;

/// A position in the plane, in the caller's units of length.
#[derive(Clone, Copy, Debug, PartialEq, Eq, Structural)]
pub struct Point {
    pub x: i64,
    pub y: i64,
}

/// A direction of travel. A unit vector has length `DIRECTION_SCALE`; the
/// components are taken as given, whatever their length.
#[derive(Clone, Copy, Debug, PartialEq, Eq, Structural)]
pub struct Direction {
    pub x: i64,
    pub y: i64,
}

/// Squared distance between two points.
pub open spec fn dist_sq(a: Point, b: Point) -> int {
    let dx = b.x - a.x;
    let dy = b.y - a.y;
    dx * dx + dy * dy
}

/// Whether `b` lies within `radius` of `a`, boundary included.
pub open spec fn spec_within(a: Point, b: Point, radius: u32) -> bool {
    dist_sq(a, b) <= radius * radius
}

/// The value nearest to `v` that an `i64` can hold.
pub open spec fn saturate(v: int) -> i64 {
    if v > i64::MAX {
        i64::MAX
    } else if v < i64::MIN {
        i64::MIN
    } else {
        v as i64
    }
}

/// How far one tick at `speed` (length per second, `ticks_per_second` ticks in a
/// second) carries along a direction component `c`, rounded towards zero.
pub open spec fn spec_offset(c: i64, speed: u64, ticks_per_second: u32) -> int {
    let per = DIRECTION_SCALE * ticks_per_second;
    if c < 0 {
        -((speed * (-c)) / per)
    } else {
        (speed * c) / per
    }
}

/// Where one tick of travel along `dir` at `speed` takes `p`; coordinates that
/// would leave the range of `i64` stop at its edge.
pub open spec fn spec_advanced(p: Point, dir: Direction, speed: u64, ticks_per_second: u32) -> Point {
    Point {
        x: saturate(p.x + spec_offset(dir.x, speed, ticks_per_second)),
        y: saturate(p.y + spec_offset(dir.y, speed, ticks_per_second)),
    }
}

impl Point {
    pub fn new(x: i64, y: i64) -> (r: Point)
        ensures
            r == (Point { x, y }),
    {
        Point { x, y }
    }
}

impl Direction {
    pub fn new(x: i64, y: i64) -> (r: Direction)
        ensures
            r == (Direction { x, y }),
    {
        Direction { x, y }
    }
}

/// Whether `b` lies within `radius` of `a`, computed exactly.
pub fn within_reach(a: Point, b: Point, radius: u32) -> (r: bool)
    ensures
        r == spec_within(a, b, radius),
{
    let dx: i128 = b.x as i128 - a.x as i128;
    let dy: i128 = b.y as i128 - a.y as i128;
    let rr: i128 = radius as i128;
    if dx > rr || dx < -rr || dy > rr || dy < -rr {
        proof {
            let ghost (x, y, q) = (dx as int, dy as int, rr as int);
            assert(x * x + y * y > q * q) by (nonlinear_arith)
                requires
                    q >= 0,
                    x > q || x < -q || y > q || y < -q,
            ;
        }
        false
    } else {
        proof {
            lemma_square_within(dx as int, rr as int);
            lemma_square_within(dy as int, rr as int);
        }
        dx * dx + dy * dy <= rr * rr
    }
}

proof fn lemma_square_within(x: int, q: int)
    requires
        -q <= x <= q,
        q <= 0xffff_ffff,
    ensures
        0 <= x * x <= q * q <= 0xffff_fffe_0000_0001,
{
    assert(x * x <= q * q) by (nonlinear_arith)
        requires
            -q <= x <= q,
    ;
    assert(q * q <= 0xffff_ffff * 0xffff_ffff) by (nonlinear_arith)
        requires
            0 <= q <= 0xffff_ffff,
    ;
    assert(0 <= x * x) by (nonlinear_arith);
}

/// The distance, rounded towards zero, that one tick covers along a component.
fn offset(c: i64, speed: u64, ticks_per_second: u32) -> (r: i128)
    requires
        ticks_per_second > 0,
    ensures
        r == spec_offset(c, speed, ticks_per_second),
        -0x10_0000_0000_0000_0000_0000_0000 < r < 0x10_0000_0000_0000_0000_0000_0000,
{
    let per: u128 = DIRECTION_SCALE as u128 * ticks_per_second as u128;
    let mag: u128 = if c < 0 {
        (0i128 - (c as i128)) as u128
    } else {
        c as u128
    };
    proof {
        let ghost (s, m) = (speed as int, mag as int);
        assert(s * m <= 0xffff_ffff_ffff_ffff * 0x8000_0000_0000_0000) by (nonlinear_arith)
            requires
                0 <= s <= 0xffff_ffff_ffff_ffff,
                0 <= m <= 0x8000_0000_0000_0000,
        ;
    }
    assert(per > 0) by (nonlinear_arith)
        requires
            per == DIRECTION_SCALE * ticks_per_second,
            ticks_per_second > 0,
    ;
    let prod: u128 = speed as u128 * mag;
    let q: u128 = prod / per;
    proof {
        let ghost (a, b) = (prod as int, per as int);
        assert(b >= DIRECTION_SCALE) by (nonlinear_arith)
            requires
                b == DIRECTION_SCALE * ticks_per_second,
                ticks_per_second > 0,
        ;
        vstd::arithmetic::div_mod::lemma_div_is_ordered_by_denominator(a, DIRECTION_SCALE as int, b);
        vstd::arithmetic::div_mod::lemma_div_is_ordered(a, 0x8000_0000_0000_0000_0000_0000_0000_0000, DIRECTION_SCALE as int);
        assert(0x8000_0000_0000_0000_0000_0000_0000_0000int / (DIRECTION_SCALE as int) == 0x2_0000_0000_0000_0000_0000_0000);
        assert(a / (DIRECTION_SCALE as int) < 0x10_0000_0000_0000_0000_0000_0000);
    }
    if c < 0 {
        -(q as i128)
    } else {
        q as i128
    }
}

/// Moves `p` one tick along `dir` at `speed`, stopping at the edge of `i64`.
pub fn advance(p: Point, dir: Direction, speed: u64, ticks_per_second: u32) -> (r: Point)
    requires
        ticks_per_second > 0,
    ensures
        r == spec_advanced(p, dir, speed, ticks_per_second),
{
    let x: i128 = p.x as i128 + offset(dir.x, speed, ticks_per_second);
    let y: i128 = p.y as i128 + offset(dir.y, speed, ticks_per_second);
    Point { x: clamp_i64(x), y: clamp_i64(y) }
}

fn clamp_i64(v: i128) -> (r: i64)
    ensures
        r == saturate(v as int),
{
    if v > i64::MAX as i128 {
        i64::MAX
    } else if v < i64::MIN as i128 {
        i64::MIN
    } else {
        v as i64
    }
}

} // verus!
