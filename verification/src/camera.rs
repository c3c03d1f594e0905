//! Camera kinematics: heading and position integrated from the held input,
//! one exact fixed-point step per simulation tick.
//!
//! The heading is a fixed-point angle in radians ([`SCALE`] units per
//! radian); positions are in sub-units of `1 / (SCALE * SCALE)` world units,
//! so one tick of movement, `sine-or-cosine * move_step`, is an exact
//! integer. The trigonometric values for the current heading are supplied by
//! the unverified driver as a [`DirBasis`]; everything downstream of them is
//! exact, so inverse motions cancel to the very last sub-unit.

use vstd::arithmetic::mul::{lemma_mul_is_commutative, lemma_mul_is_distributive_add};
use vstd::prelude::*;

use crate::config::SCALE;
use crate::input::{input_none, no_input_held, Input};
use crate::transform::{
    bounded, lemma_mat_mul_bounded, mat_mul, mat_rotate_y, mat_translate, Transform, STATIC_BOUND,
};

verus! {

/// Largest camera coordinate magnitude the transform pipeline accepts
/// without overflow (2^45 sub-units, about 3.9 million world units).
pub const POS_MAX: i64 = 0x2000_0000_0000;

/// Entry bound on a composed camera view transform:
/// `4 * SCALE * POS_MAX`.
pub const CAM_BOUND: i128 = 422_212_465_065_984_000;

/// A position in space, in fixed-point sub-units.
#[derive(Clone, Copy, PartialEq, Eq, Structural, Debug)]
pub struct Point {
    pub x: i64,
    pub y: i64,
    pub z: i64,
}

/// The camera: a yaw angle in fixed-point radians, increasing
/// counterclockwise around the vertical axis, and a position.
#[derive(Clone, Copy, PartialEq, Eq, Structural, Debug)]
pub struct Camera {
    pub heading: i64,
    pub pos: Point,
}

/// Sine and cosine of the camera heading in fixed point (magnitude at most
/// [`SCALE`]), computed outside the verified core and handed in each tick.
#[derive(Clone, Copy, PartialEq, Eq, Structural, Debug)]
pub struct DirBasis {
    pub s: i64,
    pub c: i64,
}

/// Mathematical model of a camera: unbounded integers, so iterated motion
/// can be reasoned about without overflow side conditions.
#[verifier::ext_equal]
pub struct CamV {
    pub heading: int,
    pub x: int,
    pub y: int,
    pub z: int,
}

impl View for Camera {
    type V = CamV;

    open spec fn view(&self) -> CamV {
        CamV {
            heading: self.heading as int,
            x: self.pos.x as int,
            y: self.pos.y as int,
            z: self.pos.z as int,
        }
    }
}

/// One tick of camera integration under held input `inp`, where `s` and `c`
/// are the fixed-point sine and cosine of the current heading: each held
/// movement flag adds its heading-relative direction scaled by `move_step`
/// (simultaneous flags sum, deliberately un-normalized), and each held turn
/// flag adds or subtracts `turn_step`, so opposite turns cancel exactly.
pub open spec fn step_camera(
    cam: CamV,
    inp: Input,
    s: int,
    c: int,
    move_step: int,
    turn_step: int,
) -> CamV {
    CamV {
        heading: cam.heading + (if inp.turn_left {
            turn_step
        } else {
            0
        }) - (if inp.turn_right {
            turn_step
        } else {
            0
        }),
        x: cam.x + (if inp.move_left {
            -(c * move_step)
        } else {
            0
        }) + (if inp.move_right {
            c * move_step
        } else {
            0
        }) + (if inp.move_forward {
            s * move_step
        } else {
            0
        }) + (if inp.move_back {
            -(s * move_step)
        } else {
            0
        }),
        y: cam.y,
        z: cam.z + (if inp.move_left {
            -(s * move_step)
        } else {
            0
        }) + (if inp.move_right {
            s * move_step
        } else {
            0
        }) + (if inp.move_forward {
            -(c * move_step)
        } else {
            0
        }) + (if inp.move_back {
            c * move_step
        } else {
            0
        }),
    }
}

/// The camera after one integration step per element of `basis`, the
/// sine/cosine pair supplied at each respective tick, with the same input
/// held throughout.
pub open spec fn camera_after(
    cam: CamV,
    inp: Input,
    basis: Seq<(int, int)>,
    move_step: int,
    turn_step: int,
) -> CamV
    decreases basis.len(),
{
    if basis.len() == 0 {
        cam
    } else {
        step_camera(
            camera_after(cam, inp, basis.drop_last(), move_step, turn_step),
            inp,
            basis.last().0,
            basis.last().1,
            move_step,
            turn_step,
        )
    }
}

/// Sum of the sines of a tick sequence.
pub open spec fn sum_sin(basis: Seq<(int, int)>) -> int
    decreases basis.len(),
{
    if basis.len() == 0 {
        0
    } else {
        sum_sin(basis.drop_last()) + basis.last().0
    }
}

/// Sum of the cosines of a tick sequence.
pub open spec fn sum_cos(basis: Seq<(int, int)>) -> int
    decreases basis.len(),
{
    if basis.len() == 0 {
        0
    } else {
        sum_cos(basis.drop_last()) + basis.last().1
    }
}

/// With no input held, any number of ticks leaves the camera exactly where
/// it started: integration is the identity on an idle camera.
pub proof fn lemma_idle_camera_unchanged(
    cam: CamV,
    inp: Input,
    basis: Seq<(int, int)>,
    move_step: int,
    turn_step: int,
)
    requires
        no_input_held(inp),
    ensures
        camera_after(cam, inp, basis, move_step, turn_step) == cam,
    decreases basis.len(),
{
    if basis.len() > 0 {
        lemma_idle_camera_unchanged(cam, inp, basis.drop_last(), move_step, turn_step);
        assert(camera_after(cam, inp, basis, move_step, turn_step) =~= cam);
    }
}

/// Holding only turn-left for one tick and then only turn-right for one tick
/// returns the heading to its original value, whatever direction basis each
/// tick saw: the two turns are exact inverses.
pub proof fn lemma_turn_left_then_right_cancels(
    cam: CamV,
    s1: int,
    c1: int,
    s2: int,
    c2: int,
    move_step: int,
    turn_step: int,
)
    ensures
        step_camera(
            step_camera(cam, Input { turn_left: true, ..input_none() }, s1, c1, move_step, turn_step),
            Input { turn_right: true, ..input_none() },
            s2,
            c2,
            move_step,
            turn_step,
        ).heading == cam.heading,
{
}

/// Holding turn-left and turn-right simultaneously leaves the heading
/// unchanged for any number of ticks: the two contributions cancel exactly
/// each tick, whatever movement flags are held besides.
pub proof fn lemma_simultaneous_turns_cancel(
    cam: CamV,
    inp: Input,
    basis: Seq<(int, int)>,
    move_step: int,
    turn_step: int,
)
    requires
        inp.turn_left,
        inp.turn_right,
    ensures
        camera_after(cam, inp, basis, move_step, turn_step).heading == cam.heading,
    decreases basis.len(),
{
    if basis.len() > 0 {
        lemma_simultaneous_turns_cancel(cam, inp, basis.drop_last(), move_step, turn_step);
    }
}

/// Holding only move-forward for `basis.len()` ticks moves the camera by
/// `move_step` along `(sin, 0, -cos)` of the heading at each respective
/// tick -- a piecewise path whose coordinates are the summed sines and
/// cosines -- and leaves the heading untouched.
pub proof fn lemma_forward_piecewise_path(
    cam: CamV,
    basis: Seq<(int, int)>,
    move_step: int,
    turn_step: int,
)
    ensures
        ({
            let r = camera_after(
                cam,
                Input { move_forward: true, ..input_none() },
                basis,
                move_step,
                turn_step,
            );
            &&& r.heading == cam.heading
            &&& r.x == cam.x + move_step * sum_sin(basis)
            &&& r.y == cam.y
            &&& r.z == cam.z - move_step * sum_cos(basis)
        }),
    decreases basis.len(),
{
    let inp = Input { move_forward: true, ..input_none() };
    if basis.len() == 0 {
    } else {
        lemma_forward_piecewise_path(cam, basis.drop_last(), move_step, turn_step);
        let s = basis.last().0;
        let c = basis.last().1;
        lemma_mul_is_distributive_add(move_step, sum_sin(basis.drop_last()), s);
        lemma_mul_is_distributive_add(move_step, sum_cos(basis.drop_last()), c);
        lemma_mul_is_commutative(move_step, s);
        lemma_mul_is_commutative(move_step, c);
    }
}

/// The per-frame view transform: rotate by the heading after translating the
/// world by the camera's negated position, composed as rotate-after-translate,
/// so the camera ends up at the origin looking down its heading.
pub fn camera_transform(cam: &Camera, dir: &DirBasis) -> (t: Transform)
    requires
        -POS_MAX <= cam.pos.x <= POS_MAX,
        -POS_MAX <= cam.pos.y <= POS_MAX,
        -POS_MAX <= cam.pos.z <= POS_MAX,
        -SCALE <= dir.s <= SCALE,
        -SCALE <= dir.c <= SCALE,
    ensures
        t@ == mat_mul(
            mat_rotate_y(dir.s as int, dir.c as int, SCALE as int),
            mat_translate(-cam.pos.x as int, -cam.pos.y as int, -cam.pos.z as int),
        ),
        bounded(t@, CAM_BOUND as int),
{
    let rot = Transform::rotate_y(dir.s, dir.c);
    let trans = Transform::translate(-cam.pos.x, -cam.pos.y, -cam.pos.z);
    proof {
        lemma_mat_mul_bounded(rot@, trans@, SCALE as int, POS_MAX as int);
        assert(4 * (SCALE as int) * (POS_MAX as int) == CAM_BOUND as int);
    }
    rot.compose(&trans)
}

/// The whole per-frame transform: the initialization-time pipeline composed
/// with this frame's camera view transform. Applied by the renderer to every
/// object after the object's own model transform.
pub fn frame_transform(base: &Transform, cam: &Camera, dir: &DirBasis) -> (t: Transform)
    requires
        bounded(base@, STATIC_BOUND as int),
        -POS_MAX <= cam.pos.x <= POS_MAX,
        -POS_MAX <= cam.pos.y <= POS_MAX,
        -POS_MAX <= cam.pos.z <= POS_MAX,
        -SCALE <= dir.s <= SCALE,
        -SCALE <= dir.c <= SCALE,
    ensures
        t@ == mat_mul(
            base@,
            mat_mul(
                mat_rotate_y(dir.s as int, dir.c as int, SCALE as int),
                mat_translate(-cam.pos.x as int, -cam.pos.y as int, -cam.pos.z as int),
            ),
        ),
{
    let view = camera_transform(cam, dir);
    base.compose(&view)
}

} // verus!
