use explore::camera::{camera_transform, frame_transform, Camera, DirBasis, Point};
use explore::config::{Config, SCALE};
use explore::transform::base_pipeline;
use explore::world::{update, WorldState};

fn fresh_world() -> WorldState {
    WorldState::new(Vec::new())
}

/// Heading 0 in fixed point: sine 0, cosine SCALE.
fn ahead() -> DirBasis {
    DirBasis { s: 0, c: SCALE }
}

#[test]
fn idle_camera_is_unchanged_by_ticks() {
    let cfg = Config::default();
    let mut w = fresh_world();
    for _ in 0..10 {
        assert!(update(&mut w, &ahead(), &cfg));
    }
    assert_eq!(w.camera, Camera { heading: 0, pos: Point { x: 0, y: 0, z: 0 } });
    assert_eq!(w.time, 500);
}

#[test]
fn forward_five_ticks_scenario() {
    let cfg = Config::default();
    let mut w = fresh_world();
    w.input.move_forward = true;
    for _ in 0..5 {
        update(&mut w, &ahead(), &cfg);
    }
    // 5 ticks of 0.2 world units per second at 60 ticks per second.
    assert_eq!(w.camera.pos, Point { x: 0, y: 0, z: -150_000 });
    assert_eq!(w.camera.heading, 0);
    let sub_units_per_world = (SCALE as f64) * (SCALE as f64);
    let world_z = (w.camera.pos.z as f64) / sub_units_per_world;
    let expected = -5.0 * 0.2 / 60.0;
    assert!((world_z - expected).abs() < 1e-12);
}

#[test]
fn turn_left_then_right_cancels() {
    let cfg = Config::default();
    let mut w = fresh_world();
    w.input.turn_left = true;
    update(&mut w, &ahead(), &cfg);
    assert_eq!(w.camera.heading, 100);
    w.input.turn_left = false;
    w.input.turn_right = true;
    update(&mut w, &DirBasis { s: 100, c: 2998 }, &cfg);
    assert_eq!(w.camera.heading, 0);
}

#[test]
fn simultaneous_turns_cancel() {
    let cfg = Config::default();
    let mut w = fresh_world();
    w.input.turn_left = true;
    w.input.turn_right = true;
    for _ in 0..7 {
        update(&mut w, &ahead(), &cfg);
    }
    assert_eq!(w.camera.heading, 0);
}

#[test]
fn diagonal_movement_sums_directions() {
    let cfg = Config::default();
    let mut w = fresh_world();
    w.input.move_forward = true;
    w.input.move_left = true;
    update(&mut w, &ahead(), &cfg);
    // forward adds (0, 0, -30000), left adds (-30000, 0, 0); the sum is not
    // re-normalized.
    assert_eq!(w.camera.pos, Point { x: -30_000, y: 0, z: -30_000 });
}

#[test]
fn movement_follows_current_heading() {
    let cfg = Config::default();
    let mut w = fresh_world();
    w.input.move_forward = true;
    // A quarter turn to the left: sine SCALE, cosine 0.
    update(&mut w, &DirBasis { s: SCALE, c: 0 }, &cfg);
    assert_eq!(w.camera.pos, Point { x: 30_000, y: 0, z: 0 });
}

#[test]
fn camera_transform_rotates_after_translating() {
    let cam = Camera { heading: 0, pos: Point { x: 10, y: 20, z: 30 } };
    let t = camera_transform(&cam, &ahead());
    assert_eq!(
        [
            [t.m00, t.m01, t.m02, t.m03],
            [t.m10, t.m11, t.m12, t.m13],
            [t.m20, t.m21, t.m22, t.m23],
            [t.m30, t.m31, t.m32, t.m33],
        ],
        [
            [3000, 0, 0, -30_000],
            [0, 3000, 0, -60_000],
            [0, 0, 3000, -90_000],
            [0, 0, 0, 3000],
        ],
    );
}

#[test]
fn frame_transform_is_base_composed_with_view() {
    let cfg = Config::default();
    let base = base_pipeline(&cfg);
    let cam = Camera { heading: 0, pos: Point { x: 10, y: 20, z: 30 } };
    let dir = ahead();
    let expected = base.compose(&camera_transform(&cam, &dir));
    assert_eq!(frame_transform(&base, &cam, &dir), expected);
}
