use vstd::prelude::*;

verus! {

/// One full turn, in angle units.
pub const TURN: i64 = 0x1_0000_0000;

/// Half a turn, in angle units.
pub const HALF_TURN: i64 = 0x8000_0000;

/// The signed angle from `from` to `to`: the representative of `to - from`
/// modulo a full turn that lies in `[-HALF_TURN, HALF_TURN)`.
pub open spec fn spec_angle_error(to: u32, from: u32) -> int {
    let d = to as int - from as int;
    if d >= HALF_TURN {
        d - TURN
    } else if d < -HALF_TURN {
        d + TURN
    } else {
        d
    }
}

/// The heading reached by turning `heading` through `by` units.
pub open spec fn spec_rotated(heading: u32, by: int) -> u32 {
    ((heading as int + by) % (TURN as int)) as u32
}

/// The rotation a homing entity applies in one tick: towards the target, by the
/// angular error but by no more than `rate`. A negative error turns clockwise.
pub open spec fn spec_turn(error: int, rate: u32) -> int {
    if error > 0 {
        if error <= rate { error } else { rate as int }
    } else if error < 0 {
        if -error <= rate { error } else { -(rate as int) }
    } else {
        0
    }
}

/// Signed angle from `from` to `to`, in `[-HALF_TURN, HALF_TURN)`.
pub fn angle_error(to: u32, from: u32) -> (r: i64)
    ensures
        r == spec_angle_error(to, from),
        -HALF_TURN <= r < HALF_TURN,
        (to as int - from as int - r) % (TURN as int) == 0,
{
    let d: i64 = to as i64 - from as i64;
    if d >= HALF_TURN {
        d - TURN
    } else if d < -HALF_TURN {
        d + TURN
    } else {
        d
    }
}

/// The rotation towards a target that lies `error` units away, limited to `rate`.
pub fn turn_toward(error: i64, rate: u32) -> (r: i64)
    requires
        -HALF_TURN <= error < HALF_TURN,
    ensures
        r == spec_turn(error as int, rate),
        -(rate as int) <= r <= rate,
        error >= 0 ==> 0 <= r <= error,
        error <= 0 ==> error <= r <= 0,
        error == 0 ==> r == 0,
{
    let rate: i64 = rate as i64;
    if error > 0 {
        if error <= rate { error } else { rate }
    } else if error < 0 {
        if -error <= rate { error } else { -rate }
    } else {
        0
    }
}

/// Turns `heading` through `by` units, wrapping around the full turn.
pub fn rotate(heading: u32, by: i64) -> (r: u32)
    requires
        -HALF_TURN <= by <= HALF_TURN,
    ensures
        r == spec_rotated(heading, by as int),
{
    let s: i64 = heading as i64 + by;
    let w: i64 = if s < 0 {
        s + TURN
    } else if s >= TURN {
        s - TURN
    } else {
        s
    };
    w as u32
}

} // verus!
