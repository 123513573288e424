//! Explicit Euler integration of positions and velocities.
use vstd::prelude::*;

verus! {

/// A 2D vector of fixed-point integers (see `config` for the units).
#[derive(Clone, Copy, Debug, PartialEq, Eq, Structural)]
pub struct Vector {
    pub x: i64,
    pub y: i64,
}

/// Velocity of an entity, in microunits per second.
#[derive(Clone, Copy, Debug, PartialEq, Eq, Structural)]
pub struct Velocity(pub Vector);

/// Constant acceleration of an entity, in world units per second squared.
#[derive(Clone, Copy, Debug, PartialEq, Eq, Structural)]
pub struct Acceleration(pub Vector);

impl Vector {
    pub fn new(x: i64, y: i64) -> (r: Vector)
        ensures
            r.x == x,
            r.y == y,
    {
        Vector { x, y }
    }
}

/// `v` is representable as an `i64`.
pub open spec fn fits_i64(v: int) -> bool {
    i64::MIN <= v <= i64::MAX
}

/// One Euler step of a quantity `p` whose rate of change is `rate`.
pub open spec fn stepped(p: int, rate: int, dt: int) -> int {
    p + rate * dt
}

/// Both components of `p` stay representable after a step at `rate`.
pub open spec fn can_step(p: Vector, rate: Vector, dt: int) -> bool {
    fits_i64(stepped(p.x as int, rate.x as int, dt)) && fits_i64(stepped(p.y as int, rate.y as int, dt))
}

/// `n` Euler steps of one axis, position first: the position moves with
/// the velocity held before the velocity takes this step's acceleration.
pub open spec fn euler(p: int, v: int, a: int, dt: int, n: nat) -> (int, int)
    decreases n,
{
    if n == 0 {
        (p, v)
    } else {
        let prev = euler(p, v, a, dt, (n - 1) as nat);
        (stepped(prev.0, prev.1, dt), stepped(prev.1, a, dt))
    }
}

proof fn lemma_product_fits_i128(a: i64, b: i64)
    ensures
        -0x4000_0000_0000_0000_0000_0000_0000_0000 <= (a as int) * (b as int)
            <= 0x4000_0000_0000_0000_0000_0000_0000_0000,
{
    let x = a as int;
    let y = b as int;
    assert(-0x8000_0000_0000_0000 <= x <= 0x7fff_ffff_ffff_ffff);
    assert(-0x8000_0000_0000_0000 <= y <= 0x7fff_ffff_ffff_ffff);
    assert(-0x4000_0000_0000_0000_0000_0000_0000_0000 <= x * y <= 0x4000_0000_0000_0000_0000_0000_0000_0000)
        by (nonlinear_arith)
        requires
            -0x8000_0000_0000_0000 <= x <= 0x7fff_ffff_ffff_ffff,
            -0x8000_0000_0000_0000 <= y <= 0x7fff_ffff_ffff_ffff,
    ;
}

/// One exact Euler step of a scalar.
fn step_scalar(p: i64, rate: i64, dt: i64) -> (r: i64)
    requires
        fits_i64(stepped(p as int, rate as int, dt as int)),
    ensures
        r == stepped(p as int, rate as int, dt as int),
{
    proof {
        lemma_product_fits_i128(rate, dt);
    }
    let wide: i128 = p as i128 + (rate as i128) * (dt as i128);
    wide as i64
}

/// Moves a position by `velocity * dt`.
pub fn update_position(position: &mut Vector, velocity: &Velocity, dt: i64)
    requires
        can_step(*old(position), velocity.0, dt as int),
    ensures
        final(position).x == stepped(old(position).x as int, velocity.0.x as int, dt as int),
        final(position).y == stepped(old(position).y as int, velocity.0.y as int, dt as int),
{
    position.x = step_scalar(position.x, velocity.0.x, dt);
    position.y = step_scalar(position.y, velocity.0.y, dt);
}

/// Changes a velocity by `acceleration * dt`.
pub fn update_velocity(velocity: &mut Velocity, acceleration: &Acceleration, dt: i64)
    requires
        can_step(old(velocity).0, acceleration.0, dt as int),
    ensures
        final(velocity).0.x == stepped(old(velocity).0.x as int, acceleration.0.x as int, dt as int),
        final(velocity).0.y == stepped(old(velocity).0.y as int, acceleration.0.y as int, dt as int),
{
    velocity.0.x = step_scalar(velocity.0.x, acceleration.0.x, dt);
    velocity.0.y = step_scalar(velocity.0.y, acceleration.0.y, dt);
}

/// Under a constant acceleration `a` and a fixed step `dt`, `n` Euler steps
/// give the velocity `v + n a dt` and the position
/// `p + v n dt + a (n dt)^2 / 2 - a n dt^2 / 2`: the uniformly accelerated
/// motion, less the first-order error of the explicit scheme.
pub proof fn integration_closed_form(p: int, v: int, a: int, dt: int, n: nat)
    ensures
        euler(p, v, a, dt, n).1 == v + n * a * dt,
        2 * euler(p, v, a, dt, n).0 == 2 * p + 2 * v * n * dt + a * (n * dt) * (n * dt) - a * n * dt * dt,
    decreases n,
{
    if n == 0 {
        assert(v * n * dt == 0 && a * (n * dt) * (n * dt) == 0 && a * n * dt * dt == 0 && n * a * dt == 0)
            by (nonlinear_arith)
            requires
                n == 0,
        ;
    } else {
        let m = (n - 1) as nat;
        integration_closed_form(p, v, a, dt, m);
        let q = euler(p, v, a, dt, m).0;
        let w = euler(p, v, a, dt, m).1;
        assert(w == v + m * a * dt);
        assert(2 * q == 2 * p + 2 * v * m * dt + a * (m * dt) * (m * dt) - a * m * dt * dt);
        assert(euler(p, v, a, dt, n) == (q + w * dt, w + a * dt));
        assert(w + a * dt == v + n * a * dt) by (nonlinear_arith)
            requires
                w == v + m * a * dt,
                n == m + 1,
        ;
        assert(2 * (q + w * dt) == 2 * p + 2 * v * n * dt + a * (n * dt) * (n * dt) - a * n * dt * dt)
            by (nonlinear_arith)
            requires
                w == v + m * a * dt,
                2 * q == 2 * p + 2 * v * m * dt + a * (m * dt) * (m * dt) - a * m * dt * dt,
                n == m + 1,
        ;
    }
}

} // verus!
