//! The single mutable simulation snapshot and its per-tick update.
//!
//! A [`WorldState`] owns the elapsed-time accumulator, the objects loaded at
//! startup, the camera and the held input. [`update`] advances it by exactly
//! one fixed tick: time grows by the tick duration and the camera integrates
//! the held input, nothing else moves.

use vstd::prelude::*;

use crate::camera::{step_camera, Camera, DirBasis, Point};
use crate::config::{Config, SCALE};
use crate::input::{input_none, Input};
use crate::transform::{bounded, mat_identity, mat_mul, mat_scale, mat_translate, Transform,
    MAT_BOUND};

verus! {

/// Coordinate room needed by one tick of integration: positions, heading and
/// time stay verifiably inside i64 as long as they start within this bound,
/// which a run of millions of years of ticks cannot leave.
pub const SIM_ROOM: i64 = 4_000_000_000_000_000_000;

/// Largest accepted fixed-point object scale factor.
pub const OBJ_FACTOR_MAX: i64 = 1_000_000_000;

/// An object loaded at startup: an opaque geometry handle the renderer
/// resolves to mesh data, plus the model transform baked in at load time.
#[derive(Clone, Copy, PartialEq, Eq, Structural, Debug)]
pub struct Object {
    /// Identifies the loaded geometry to the external renderer.
    pub geometry: u64,
    /// The load-time model transform, applied to the object's local geometry
    /// before the per-frame transform.
    pub model: Transform,
}

impl Object {
    /// A freshly loaded object: geometry as loaded, model transform identity.
    pub fn new(geometry: u64) -> (o: Object)
        ensures
            o.geometry == geometry,
            o.model@ == mat_identity(),
    {
        Object { geometry, model: Transform::identity() }
    }

    /// A copy of the object scaled by the fixed-point factors
    /// (`sx / SCALE`, ...), applied after its existing model transform.
    pub fn with_scale(self, sx: i64, sy: i64, sz: i64) -> (o: Object)
        requires
            bounded(self.model@, MAT_BOUND as int),
            -OBJ_FACTOR_MAX <= sx <= OBJ_FACTOR_MAX,
            -OBJ_FACTOR_MAX <= sy <= OBJ_FACTOR_MAX,
            -OBJ_FACTOR_MAX <= sz <= OBJ_FACTOR_MAX,
        ensures
            o.geometry == self.geometry,
            o.model@ == mat_mul(
                mat_scale(sx as int, sy as int, sz as int, SCALE as int),
                self.model@,
            ),
    {
        let scale = Transform::scale_fp(sx, sy, sz);
        Object { geometry: self.geometry, model: scale.compose(&self.model) }
    }

    /// A copy of the object translated by `v` sub-units, applied after its
    /// existing model transform.
    pub fn with_translation(self, v: Point) -> (o: Object)
        requires
            bounded(self.model@, MAT_BOUND as int),
            -MAT_BOUND <= v.x <= MAT_BOUND,
            -MAT_BOUND <= v.y <= MAT_BOUND,
            -MAT_BOUND <= v.z <= MAT_BOUND,
        ensures
            o.geometry == self.geometry,
            o.model@ == mat_mul(mat_translate(v.x as int, v.y as int, v.z as int), self.model@),
    {
        let translate = Transform::translate(v.x, v.y, v.z);
        Object { geometry: self.geometry, model: translate.compose(&self.model) }
    }
}

/// Everything the simulation mutates: elapsed fixed-point time, the objects
/// fixed at initialization, the camera, and the held input.
pub struct WorldState {
    /// Elapsed simulation time, in fixed-point seconds; grows by
    /// `config.tick_fp` per simulated tick and is never reset.
    pub time: i64,
    /// The object collection, fixed at initialization.
    pub objects: Vec<Object>,
    pub camera: Camera,
    pub input: Input,
}

/// Bounds under which one tick of integration cannot overflow.
pub open spec fn update_safe(w: WorldState) -> bool {
    &&& -SIM_ROOM <= w.camera.pos.x <= SIM_ROOM
    &&& -SIM_ROOM <= w.camera.pos.y <= SIM_ROOM
    &&& -SIM_ROOM <= w.camera.pos.z <= SIM_ROOM
    &&& -SIM_ROOM <= w.camera.heading <= SIM_ROOM
    &&& -SIM_ROOM <= w.time <= SIM_ROOM
}

impl WorldState {
    /// The startup snapshot: zero elapsed time, the given objects, the camera
    /// at the origin with heading zero, nothing held.
    pub fn new(objects: Vec<Object>) -> (w: WorldState)
        ensures
            w.time == 0,
            w.objects == objects,
            w.camera == (Camera { heading: 0, pos: Point { x: 0, y: 0, z: 0 } }),
            w.input == input_none(),
    {
        WorldState {
            time: 0,
            objects,
            camera: Camera { heading: 0, pos: Point { x: 0, y: 0, z: 0 } },
            input: Input::new(),
        }
    }
}

/// Advances the world by exactly one tick: time grows by the tick duration
/// and the camera takes one [`step_camera`] step under the held input and the
/// supplied heading basis. Objects and input are untouched. The returned flag
/// reports whether the loop should continue and is always true: update itself
/// never requests an exit.
pub fn update(world_state: &mut WorldState, dir: &DirBasis, config: &Config) -> (continue_running:
    bool)
    requires
        config.wf(),
        -SCALE <= dir.s <= SCALE,
        -SCALE <= dir.c <= SCALE,
        update_safe(*old(world_state)),
    ensures
        continue_running,
        final(world_state).camera@ == step_camera(
            old(world_state).camera@,
            old(world_state).input,
            dir.s as int,
            dir.c as int,
            config.move_step as int,
            config.turn_step as int,
        ),
        final(world_state).time == old(world_state).time + config.tick_fp,
        final(world_state).input == old(world_state).input,
        final(world_state).objects == old(world_state).objects,
{
    world_state.time = world_state.time + config.tick_fp;

    proof {
        assert(-1_800_000 <= (dir.s as int) * (config.move_step as int) <= 1_800_000)
            by (nonlinear_arith)
            requires
                -3000 <= dir.s as int <= 3000,
                0 <= config.move_step as int <= 600,
        ;
        assert(-1_800_000 <= (dir.c as int) * (config.move_step as int) <= 1_800_000)
            by (nonlinear_arith)
            requires
                -3000 <= dir.c as int <= 3000,
                0 <= config.move_step as int <= 600,
        ;
    }
    let sin_step = dir.s * config.move_step;
    let cos_step = dir.c * config.move_step;

    if world_state.input.move_left {
        world_state.camera.pos.x = world_state.camera.pos.x - cos_step;
        world_state.camera.pos.z = world_state.camera.pos.z - sin_step;
    }
    if world_state.input.move_right {
        world_state.camera.pos.x = world_state.camera.pos.x + cos_step;
        world_state.camera.pos.z = world_state.camera.pos.z + sin_step;
    }
    if world_state.input.move_forward {
        world_state.camera.pos.x = world_state.camera.pos.x + sin_step;
        world_state.camera.pos.z = world_state.camera.pos.z - cos_step;
    }
    if world_state.input.move_back {
        world_state.camera.pos.x = world_state.camera.pos.x - sin_step;
        world_state.camera.pos.z = world_state.camera.pos.z + cos_step;
    }

    if world_state.input.turn_left {
        world_state.camera.heading = world_state.camera.heading + config.turn_step;
    }
    if world_state.input.turn_right {
        world_state.camera.heading = world_state.camera.heading - config.turn_step;
    }

    proof {
        assert(world_state.camera@ =~= step_camera(
            old(world_state).camera@,
            old(world_state).input,
            dir.s as int,
            dir.c as int,
            config.move_step as int,
            config.turn_step as int,
        ));
    }
    true
}

} // verus!
