//! The player's direction from the keyboard, and the per-frame movement step.

use vstd::prelude::*;
use crate::geometry::Vec3i;

verus! {

/// Which of the four movement keys are held this frame.
#[derive(Clone, Copy, PartialEq, Eq, Structural, Debug)]
pub struct MoveKeys {
    pub up: bool,
    pub down: bool,
    pub left: bool,
    pub right: bool,
}

/// The direction the held keys add up to: right and left move `x` by one
/// each, up and down move `y`; opposite keys cancel. The depth component
/// stays zero.
pub open spec fn spec_direction(keys: MoveKeys) -> Vec3i {
    Vec3i {
        x: ((if keys.right { 1int } else { 0int }) - (if keys.left { 1int } else { 0int })) as i64,
        y: ((if keys.up { 1int } else { 0int }) - (if keys.down { 1int } else { 0int })) as i64,
        z: 0,
    }
}

pub fn direction_from_input(keys: MoveKeys) -> (d: Vec3i)
    ensures
        d == spec_direction(keys),
        -1 <= d.x <= 1,
        -1 <= d.y <= 1,
        d.z == 0,
{
    let mut d = Vec3i::zero();
    if keys.up {
        d.y = d.y + 1;
    }
    if keys.down {
        d.y = d.y - 1;
    }
    if keys.right {
        d.x = d.x + 1;
    }
    if keys.left {
        d.x = d.x - 1;
    }
    d
}

/// How far one frame moves the player along each pressed axis: the speed in
/// world units per second, scaled by the frame time and rounded down to
/// whole units.
pub open spec fn spec_frame_step(speed: i64, delta_ms: i64) -> int {
    speed * delta_ms / 1000
}

/// Whether the sprite faces left after a frame with direction `d`: moving
/// right turns it forward, moving left mirrors it, and standing still (or
/// moving only vertically) keeps the previous facing.
pub open spec fn spec_flip_x(d: Vec3i, was_flipped: bool) -> bool {
    if d.x > 0 {
        false
    } else if d.x < 0 {
        true
    } else {
        was_flipped
    }
}

/// One frame of player movement: the translation advances by the direction
/// times the frame step, and the sprite's horizontal mirroring follows the
/// direction's sign.
pub fn apply_movement(
    translation: &mut Vec3i,
    flip_x: &mut bool,
    d: Vec3i,
    speed: i64,
    delta_ms: i64,
)
    requires
        -1 <= d.x <= 1,
        -1 <= d.y <= 1,
        -1 <= d.z <= 1,
        0 <= speed,
        0 <= delta_ms,
        speed * delta_ms <= i64::MAX,
        i64::MIN <= old(translation).x - spec_frame_step(speed, delta_ms),
        old(translation).x + spec_frame_step(speed, delta_ms) <= i64::MAX,
        i64::MIN <= old(translation).y - spec_frame_step(speed, delta_ms),
        old(translation).y + spec_frame_step(speed, delta_ms) <= i64::MAX,
        i64::MIN <= old(translation).z - spec_frame_step(speed, delta_ms),
        old(translation).z + spec_frame_step(speed, delta_ms) <= i64::MAX,
    ensures
        final(translation).x == old(translation).x + d.x * spec_frame_step(speed, delta_ms),
        final(translation).y == old(translation).y + d.y * spec_frame_step(speed, delta_ms),
        final(translation).z == old(translation).z + d.z * spec_frame_step(speed, delta_ms),
        *final(flip_x) == spec_flip_x(d, *old(flip_x)),
{
    proof {
        lemma_frame_step_bounds(speed, delta_ms);
    }
    let step: i64 = speed * delta_ms / 1000;
    translation.x = shift_by(translation.x, d.x, step);
    translation.y = shift_by(translation.y, d.y, step);
    translation.z = shift_by(translation.z, d.z, step);
    if d.x > 0 {
        *flip_x = false;
    } else if d.x < 0 {
        *flip_x = true;
    }
}

/// Moves `v` by `sign` times `step`, for a sign in minus one to one.
fn shift_by(v: i64, sign: i64, step: i64) -> (r: i64)
    requires
        -1 <= sign <= 1,
        0 <= step,
        i64::MIN <= v - step,
        v + step <= i64::MAX,
    ensures
        r == v + sign * step,
{
    if sign > 0 {
        proof {
            assert(sign * step == step) by (nonlinear_arith)
                requires
                    sign == 1,
            ;
        }
        v + step
    } else if sign < 0 {
        proof {
            assert(sign * step == -step) by (nonlinear_arith)
                requires
                    sign == -1,
            ;
        }
        v - step
    } else {
        proof {
            assert(sign * step == 0) by (nonlinear_arith)
                requires
                    sign == 0,
            ;
        }
        v
    }
}

proof fn lemma_frame_step_bounds(speed: i64, delta_ms: i64)
    requires
        0 <= speed,
        0 <= delta_ms,
        speed * delta_ms <= i64::MAX,
    ensures
        0 <= spec_frame_step(speed, delta_ms) <= speed * delta_ms,
{
    assert(0 <= speed * delta_ms) by (nonlinear_arith)
        requires
            0 <= speed,
            0 <= delta_ms,
    ;
}

} // verus!
