use vstd::prelude::*;
use crate::geometry::Vec3;

verus! {

/// The walking speed, in millimetres per second; running is four times it.
pub const MOVE_SPEED: i64 = 650;

/// `d * num / den`, rounded toward zero.
pub open spec fn scale_toward_zero(d: int, num: int, den: int) -> int {
    if d >= 0 {
        d * num / den
    } else {
        -((-d) * num / den)
    }
}

/// A velocity component eased fifteen percent of the way to its target.
pub open spec fn followed(v: int, t: int) -> int {
    v + scale_toward_zero(t - v, 15, 100)
}

/// The largest velocity component, in millimetres per second.
pub const VELOCITY_LIMIT: i64 = 10000;

pub open spec fn velocity_ok(v: Vec3) -> bool {
    &&& -VELOCITY_LIMIT <= v.x <= VELOCITY_LIMIT
    &&& -VELOCITY_LIMIT <= v.y <= VELOCITY_LIMIT
    &&& -VELOCITY_LIMIT <= v.z <= VELOCITY_LIMIT
}

/// The walking direction, in thousandths, for `a` steps along `look` and `b`
/// along `side`; a diagonal is shortened to about unit length.
pub open spec fn walk_direction(a: int, b: int, look: int, side: int) -> int {
    if a != 0 && b != 0 {
        scale_toward_zero(a * look + b * side, 707, 1000)
    } else {
        a * look + b * side
    }
}

/// The ground speed, in millimetres per second, for a run factor in
/// thousandths: walking speed eased toward four times it.
pub open spec fn ground_speed(can_move: bool, run_factor: u32) -> int {
    if can_move {
        MOVE_SPEED + 3 * MOVE_SPEED * run_factor / 1000
    } else {
        0
    }
}

pub open spec fn axis(plus: bool, minus: bool) -> int {
    (if plus {
        1int
    } else {
        0int
    }) - (if minus {
        1int
    } else {
        0int
    })
}

pub(crate) fn scale_toward_zero_exec(d: i64, num: i64, den: i64) -> (r: i64)
    requires
        -100000 <= d <= 100000,
        0 <= num <= den,
        0 < den <= 1000,
    ensures
        r == scale_toward_zero(d as int, num as int, den as int),
        d >= 0 ==> 0 <= r <= d,
        d < 0 ==> d <= r <= 0,
{
    if d >= 0 {
        assert(0 <= d * num <= d * den <= 100000 * 1000) by (nonlinear_arith)
            requires 0 <= d <= 100000, 0 <= num <= den, den <= 1000;
        assert((d * num) as int / (den as int) <= d) by (nonlinear_arith)
            requires 0 <= d, 0 <= num <= den, 0 < den, 0 <= d * num <= d * den;
        d * num / den
    } else {
        let e = -d;
        assert(0 <= e * num <= e * den <= 100000 * 1000) by (nonlinear_arith)
            requires 0 <= e <= 100000, 0 <= num <= den, den <= 1000;
        assert((e * num) as int / (den as int) <= e) by (nonlinear_arith)
            requires 0 <= e, 0 <= num <= den, 0 < den, 0 <= e * num <= e * den;
        -(e * num / den)
    }
}

pub(crate) fn follow(v: i64, t: i64) -> (r: i64)
    requires
        -VELOCITY_LIMIT <= v <= VELOCITY_LIMIT,
        -VELOCITY_LIMIT <= t <= VELOCITY_LIMIT,
    ensures
        r == followed(v as int, t as int),
        -VELOCITY_LIMIT <= r <= VELOCITY_LIMIT,
{
    v + scale_toward_zero_exec(t - v, 15, 100)
}

pub(crate) fn step_axis(plus: bool, minus: bool) -> (r: i64)
    ensures
        r == axis(plus, minus),
{
    (if plus { 1 } else { 0 }) - (if minus { 1 } else { 0 })
}

pub(crate) fn walk_component(a: i64, b: i64, look: i64, side: i64) -> (r: i64)
    requires
        -1 <= a <= 1,
        -1 <= b <= 1,
        -1000 <= look <= 1000,
        -1000 <= side <= 1000,
    ensures
        r == walk_direction(a as int, b as int, look as int, side as int),
        -2000 <= r <= 2000,
{
    assert(-1000 <= a * look <= 1000) by (nonlinear_arith)
        requires -1 <= a <= 1, -1000 <= look <= 1000;
    assert(-1000 <= b * side <= 1000) by (nonlinear_arith)
        requires -1 <= b <= 1, -1000 <= side <= 1000;
    let sum = a * look + b * side;
    if a != 0 && b != 0 {
        scale_toward_zero_exec(sum, 707, 1000)
    } else {
        sum
    }
}

pub(crate) fn target_component(dir: i64, speed: i64) -> (r: i64)
    requires
        -2000 <= dir <= 2000,
        0 <= speed <= 2600,
    ensures
        r == scale_toward_zero(dir as int, speed as int, 1000),
        -VELOCITY_LIMIT <= r <= VELOCITY_LIMIT,
{
    if dir >= 0 {
        assert(0 <= dir * speed <= 2000 * 2600) by (nonlinear_arith)
            requires 0 <= dir <= 2000, 0 <= speed <= 2600;
        dir * speed / 1000
    } else {
        let e = -dir;
        assert(0 <= e * speed <= 2000 * 2600) by (nonlinear_arith)
            requires 0 <= e <= 2000, 0 <= speed <= 2600;
        -(e * speed / 1000)
    }
}


/// The run factor, in thousandths, eased a tenth of the way to its target
/// (and at least one step, so that it gets there).
pub open spec fn eased(rf: u32, target: u32) -> u32 {
    let d = target as int - rf as int;
    let step = scale_toward_zero(d, 1, 10);
    (rf as int + if step == 0 && d != 0 {
        if d > 0 { 1int } else { -1int }
    } else {
        step
    }) as u32
}

pub(crate) fn ease(rf: u32, target: u32) -> (r: u32)
    requires
        rf <= 1000,
        target <= 1000,
    ensures
        r == eased(rf, target),
        r <= 1000,
{
    let d = target as i64 - rf as i64;
    let step = scale_toward_zero_exec(d, 1, 10);
    let s = if step == 0 && d != 0 {
        if d > 0 { 1 } else { -1 }
    } else {
        step
    };
    (rf as i64 + s) as u32
}
} // verus!
