use vstd::prelude::*;

verus! {

/// Number of work groups a `glDispatchCompute` call launches along each axis.
#[derive(Clone, Copy, Debug, PartialEq, Eq, Structural)]
pub struct Dispatch {
    pub x: u32,
    pub y: u32,
    pub z: u32,
}

/// `value` rounded down to a multiple of `step`.
pub open spec fn snapped(value: u32, step: u32) -> u32
    recommends
        step > 0,
{
    (value - value % step) as u32
}

/// Rounds `value` down to a multiple of `step`, as the settings sliders do
/// with `value -= value % step`.
pub fn snap_down(value: u32, step: u32) -> (r: u32)
    requires
        step > 0,
    ensures
        r == snapped(value, step),
        r <= value,
        r % step == 0,
        value - r < step,
{
    proof {
        lemma_snap_idempotent(value, step);
    }
    value - value % step
}

/// Work groups for a one-dimensional pass over `count` items with
/// `local` invocations per group: `(count / local, 1, 1)`.
pub fn line_dispatch(count: u32, local: u32) -> (d: Dispatch)
    requires
        local > 0,
    ensures
        d.x == count / local,
        d.y == 1,
        d.z == 1,
{
    Dispatch { x: count / local, y: 1, z: 1 }
}

/// Work groups for a two-dimensional pass over a `width` x `height` field
/// with `local` x `local` invocations per group: `(width / local, height / local, 1)`.
pub fn grid_dispatch(width: u32, height: u32, local: u32) -> (d: Dispatch)
    requires
        local > 0,
    ensures
        d.x == width / local,
        d.y == height / local,
        d.z == 1,
{
    Dispatch { x: width / local, y: height / local, z: 1 }
}

/// Snapping to a multiple of `step` loses less than one step and changes
/// nothing the second time.
pub proof fn lemma_snap_idempotent(value: u32, step: u32)
    requires
        step > 0,
    ensures
        value % step <= value,
        snapped(value, step) == value - value % step,
        snapped(value, step) <= value,
        value - snapped(value, step) < step,
        snapped(value, step) % step == 0,
        snapped(snapped(value, step), step) == snapped(value, step),
{
    let s = snapped(value, step);
    vstd::arithmetic::div_mod::lemma_fundamental_div_mod(value as int, step as int);
    vstd::arithmetic::div_mod::lemma_mod_multiples_basic((value / step) as int, step as int);
    vstd::arithmetic::mul::lemma_mul_is_commutative((value / step) as int, step as int);
    assert(value % step <= value) by (nonlinear_arith)
        requires
            step > 0,
    ;
    assert(s == (value / step) * step);
}

/// A count snapped to a multiple of the work-group size is covered exactly:
/// the dispatched groups hold one invocation per item, none left over.
pub proof fn lemma_snapped_count_covered(count: u32, local: u32)
    requires
        local > 0,
    ensures
        (snapped(count, local) / local) * local == snapped(count, local),
{
    lemma_snap_idempotent(count, local);
    let s = snapped(count, local) as int;
    vstd::arithmetic::div_mod::lemma_fundamental_div_mod(s, local as int);
    vstd::arithmetic::mul::lemma_mul_is_commutative(s / (local as int), local as int);
}

} // verus!
