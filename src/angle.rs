use vstd::prelude::*;

verus! {

/// How far an angle moving at `speed` millidegrees per second travels in
/// `dt` milliseconds.
pub open spec fn step_of(speed: u32, dt: u32) -> int {
    (speed as int * dt as int) / 1000
}

/// `angle` moved toward `target` by at most `step`, without passing it.
pub open spec fn approach(angle: int, target: int, step: int) -> int {
    if target - step <= angle <= target + step {
        target
    } else if angle < target {
        angle + step
    } else {
        angle - step
    }
}

/// A full turn, in millidegrees.
pub const FULL_TURN: i64 = 360000;

/// `a` brought into `[0, FULL_TURN)`.
pub open spec fn wrapped(a: int) -> int {
    a % 360000
}

/// The signed turn from `from` to `to` the shorter way round, in
/// `[-FULL_TURN / 2, FULL_TURN / 2)`.
pub open spec fn shortest_turn(from: int, to: int) -> int {
    (to - from + 180000) % 360000 - 180000
}

/// A wrapped `angle` turned toward the wrapped `target` the shorter way by
/// at most `step`, landing on the target when it is within reach.
pub open spec fn turned(angle: int, target: int, step: int) -> int {
    let a = wrapped(angle);
    let t = wrapped(target);
    let d = shortest_turn(a, t);
    if abs(d) > step {
        if d > 0 {
            a + step
        } else {
            a - step
        }
    } else {
        t
    }
}

fn wrap(a: i64) -> (r: i64)
    requires
        -0x100000000 <= a <= 0x100000000,
    ensures
        r == wrapped(a as int),
        0 <= r < FULL_TURN,
{
    if a >= 0 {
        a % FULL_TURN
    } else {
        let p = (-a) % FULL_TURN;
        if p == 0 {
            0
        } else {
            FULL_TURN - p
        }
    }
}

/// `angle` moved toward zero by at most `step`, without passing it.
pub open spec fn decay(angle: int, step: int) -> int {
    approach(angle, 0, step)
}

pub open spec fn abs(a: int) -> int {
    if a < 0 {
        -a
    } else {
        a
    }
}

fn step(speed: u32, dt: u32) -> (r: i64)
    ensures
        r == step_of(speed, dt),
        0 <= r <= u64::MAX / 1000,
{
    assert(speed as int * dt as int <= u32::MAX as int * u32::MAX as int) by (nonlinear_arith);
    assert(0 <= speed as int * dt as int) by (nonlinear_arith);
    let p = speed as u64 * dt as u64;
    (p / 1000) as i64
}

/// An angle, in millidegrees, that follows a target at a bounded speed.
#[derive(Clone, Copy, PartialEq, Eq, Structural, Debug)]
pub struct SmoothAngle {
    pub angle: i32,
    pub target: i32,
    /// Millidegrees per second.
    pub speed: u32,
}

impl SmoothAngle {
    pub fn new(angle: i32, target: i32, speed: u32) -> (r: SmoothAngle)
        ensures
            r == (SmoothAngle { angle, target, speed }),
    {
        SmoothAngle { angle, target, speed }
    }

    pub fn set_target(&mut self, target: i32)
        ensures
            *final(self) == (SmoothAngle { target, ..*old(self) }),
    {
        self.target = target;
    }

    /// Wraps angle and target into a full turn and moves the angle toward
    /// the target the shorter way round for `dt` milliseconds.
    pub fn update(&mut self, dt: u32)
        ensures
            final(self).angle == turned(
                old(self).angle as int,
                old(self).target as int,
                step_of(old(self).speed, dt),
            ),
            final(self).target == wrapped(old(self).target as int),
            final(self).speed == old(self).speed,
    {
        let s = step(self.speed, dt);
        let a = wrap(self.angle as i64);
        let t = wrap(self.target as i64);
        let d = wrap(t - a + 180000) - 180000;
        let dist = if d < 0 { -d } else { d };
        self.target = t as i32;
        self.angle = if dist > s {
            if d > 0 { (a + s) as i32 } else { (a - s) as i32 }
        } else {
            t as i32
        };
    }

    pub fn angle(&self) -> (r: i32)
        ensures
            r == self.angle,
    {
        self.angle
    }
}

/// A recoil angle, in millidegrees: each shot kicks it to a fresh value and
/// it then decays toward zero.
#[derive(Clone, Copy, PartialEq, Eq, Structural, Debug)]
pub struct Recoil {
    pub angle: i32,
    /// Millidegrees per second.
    pub speed: u32,
}

/// The kick a random draw `roll` picks from `[min, max]`.
pub open spec fn kick_of(min: i32, max: i32, roll: u32) -> int {
    min + (roll as int) % (max - min + 1)
}

impl Recoil {
    pub fn new(speed: u32) -> (r: Recoil)
        ensures
            r == (Recoil { angle: 0, speed }),
    {
        Recoil { angle: 0, speed }
    }

    /// Decays the angle toward zero for `dt` milliseconds: its magnitude never
    /// grows and its sign never flips.
    pub fn update(&mut self, dt: u32)
        ensures
            final(self).angle == decay(old(self).angle as int, step_of(old(self).speed, dt)),
            final(self).speed == old(self).speed,
            old(self).angle >= 0 ==> 0 <= final(self).angle <= old(self).angle,
            old(self).angle <= 0 ==> old(self).angle <= final(self).angle <= 0,
    {
        let s = step(self.speed, dt);
        let a = self.angle as i64;
        let b: i64 = if -s <= a && a <= s {
            0
        } else if a < 0 {
            a + s
        } else {
            a - s
        };
        self.angle = b as i32;
    }

    /// Kicks the angle to the value that `roll` picks from `[min, max]`,
    /// whatever it was before.
    pub fn kick(&mut self, min: i32, max: i32, roll: u32)
        requires
            min <= max,
        ensures
            final(self).angle == kick_of(min, max, roll),
            min <= final(self).angle <= max,
            final(self).speed == old(self).speed,
    {
        let width = (max as i64 - min as i64 + 1) as u64;
        let offset = roll as u64 % width;
        self.angle = (min as i64 + offset as i64) as i32;
    }

    pub fn angle(&self) -> (r: i32)
        ensures
            r == self.angle,
    {
        self.angle
    }
}

/// Without new shots, recoil only decays: after any number of updates it
/// lies between zero and where it was, so its magnitude never grows and its
/// sign never flips.
pub proof fn lemma_recoil_decays_monotonically(angle: int, steps: Seq<int>)
    requires
        forall|i: int| 0 <= i < steps.len() ==> #[trigger] steps[i] >= 0,
    ensures
        angle >= 0 ==> 0 <= decay_all(angle, steps) <= angle,
        angle <= 0 ==> angle <= decay_all(angle, steps) <= 0,
        abs(decay_all(angle, steps)) <= abs(angle),
    decreases steps.len(),
{
    if steps.len() > 0 {
        let rest = steps.drop_last();
        assert forall|i: int| 0 <= i < rest.len() implies #[trigger] rest[i] >= 0 by {
            assert(rest[i] == steps[i]);
        }
        lemma_recoil_decays_monotonically(angle, rest);
        assert(steps.last() == steps[steps.len() - 1]);
    }
}

/// The angle left after decaying by each step in turn.
pub open spec fn decay_all(angle: int, steps: Seq<int>) -> int
    decreases steps.len(),
{
    if steps.len() == 0 {
        angle
    } else {
        decay(decay_all(angle, steps.drop_last()), steps.last())
    }
}

} // verus!
