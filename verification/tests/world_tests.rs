use explore::camera::{Camera, Point};
use explore::world::{Object, WorldState};

#[test]
fn new_world_starts_at_origin_with_nothing_held() {
    let w = WorldState::new(vec![Object::new(7)]);
    assert_eq!(w.time, 0);
    assert_eq!(w.camera, Camera { heading: 0, pos: Point { x: 0, y: 0, z: 0 } });
    assert_eq!(w.objects.len(), 1);
    assert_eq!(w.objects[0].geometry, 7);
    assert!(!w.input.move_forward && !w.input.move_back);
    assert!(!w.input.move_left && !w.input.move_right);
    assert!(!w.input.turn_left && !w.input.turn_right);
}

#[test]
fn new_object_has_identity_model() {
    let o = Object::new(3);
    let m = o.model;
    assert_eq!(
        [
            [m.m00, m.m01, m.m02, m.m03],
            [m.m10, m.m11, m.m12, m.m13],
            [m.m20, m.m21, m.m22, m.m23],
            [m.m30, m.m31, m.m32, m.m33],
        ],
        [[1, 0, 0, 0], [0, 1, 0, 0], [0, 0, 1, 0], [0, 0, 0, 1]],
    );
}

#[test]
fn builders_compose_model_transform_left() {
    // Triple the object, then push it 20 world units away, exactly as a
    // loaded scene would bake its model transform.
    let o = Object::new(0)
        .with_scale(9000, 9000, 9000)
        .with_translation(Point { x: 0, y: 0, z: -180_000_000 });
    let m = o.model;
    assert_eq!(
        [
            [m.m00, m.m01, m.m02, m.m03],
            [m.m10, m.m11, m.m12, m.m13],
            [m.m20, m.m21, m.m22, m.m23],
            [m.m30, m.m31, m.m32, m.m33],
        ],
        [
            [9000, 0, 0, 0],
            [0, 9000, 0, 0],
            [0, 0, 9000, -540_000_000_000],
            [0, 0, 0, 3000],
        ],
    );
}
