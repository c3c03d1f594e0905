use explore::config::Config;
use explore::transform::{base_pipeline, screen_transform, Transform};

fn transform_rows(t: &Transform) -> [[i128; 4]; 4] {
    [
        [t.m00, t.m01, t.m02, t.m03],
        [t.m10, t.m11, t.m12, t.m13],
        [t.m20, t.m21, t.m22, t.m23],
        [t.m30, t.m31, t.m32, t.m33],
    ]
}

#[test]
fn identity_is_neutral_for_composition() {
    let t = Transform::translate(5, -6, 7);
    assert_eq!(Transform::identity().compose(&t), t);
    assert_eq!(t.compose(&Transform::identity()), t);
}

#[test]
fn composition_is_associative() {
    let screen = screen_transform(&Config::default());
    let perspective = Transform::perspective();
    let camera = Transform::rotate_y(1500, 2598).compose(&Transform::translate(-40, 0, 90));
    let grouped_left = screen.compose(&perspective).compose(&camera);
    let grouped_right = screen.compose(&perspective.compose(&camera));
    assert_eq!(grouped_left, grouped_right);
}

#[test]
fn translate_entries() {
    let t = Transform::translate(10, 20, -30);
    assert_eq!(
        transform_rows(&t),
        [[1, 0, 0, 10], [0, 1, 0, 20], [0, 0, 1, -30], [0, 0, 0, 1]],
    );
}

#[test]
fn scale_entries() {
    let t = Transform::scale(2, 3, 4);
    assert_eq!(transform_rows(&t), [[2, 0, 0, 0], [0, 3, 0, 0], [0, 0, 4, 0], [0, 0, 0, 1]]);
}

#[test]
fn scale_fp_carries_homogeneous_weight() {
    let t = Transform::scale_fp(9000, 9000, 9000);
    assert_eq!(
        transform_rows(&t),
        [[9000, 0, 0, 0], [0, 9000, 0, 0], [0, 0, 9000, 0], [0, 0, 0, 3000]],
    );
}

#[test]
fn rotate_y_entries() {
    let t = Transform::rotate_y(1500, 2598);
    assert_eq!(
        transform_rows(&t),
        [[2598, 0, 1500, 0], [0, 3000, 0, 0], [-1500, 0, 2598, 0], [0, 0, 0, 3000]],
    );
}

#[test]
fn perspective_entries() {
    let t = Transform::perspective();
    assert_eq!(transform_rows(&t), [[1, 0, 0, 0], [0, 1, 0, 0], [0, 0, 1, 0], [0, 0, -1, 0]]);
}

#[test]
fn screen_transform_centers_and_scales() {
    let t = screen_transform(&Config::default());
    assert_eq!(
        transform_rows(&t),
        [[300, 0, 0, 400], [0, 300, 0, 300], [0, 0, 1, 0], [0, 0, 0, 1]],
    );
}

#[test]
fn base_pipeline_composes_all_static_stages() {
    let cfg = Config::default();
    let expected = screen_transform(&cfg)
        .compose(&Transform::perspective())
        .compose(&Transform::identity());
    assert_eq!(base_pipeline(&cfg), expected);
    assert_eq!(
        transform_rows(&expected),
        [[300, 0, -400, 0], [0, 300, -300, 0], [0, 0, 1, 0], [0, 0, -1, 0]],
    );
}
