//! Projective transforms: exact 4 by 4 integer matrices and their
//! composition.
//!
//! A transform is understood projectively: multiplying every entry by the
//! same nonzero factor leaves the map on homogeneous points unchanged, so
//! fixed-point constructors simply carry their scale in the homogeneous
//! weight. `A` composed with `B` applies `B` first, then `A`, and since the
//! entries are exact integers, composition is truly associative -- a fact
//! proved here as [`lemma_mat_mul_assoc`].

use vstd::prelude::*;

use crate::config::{Config, SCALE};

verus! {

/// The mathematical model of a transform: a 4 by 4 matrix of unbounded
/// integers, row by row (`m02` is row 0, column 2).
#[verifier::ext_equal]
pub struct Mat {
    pub m00: int,
    pub m01: int,
    pub m02: int,
    pub m03: int,
    pub m10: int,
    pub m11: int,
    pub m12: int,
    pub m13: int,
    pub m20: int,
    pub m21: int,
    pub m22: int,
    pub m23: int,
    pub m30: int,
    pub m31: int,
    pub m32: int,
    pub m33: int,
}

/// Matrix product: entry (i, j) is the dot product of row i of `a` with
/// column j of `b`, so the composed map applies `b` first, then `a`.
pub open spec fn mat_mul(a: Mat, b: Mat) -> Mat {
    Mat {
        m00: a.m00 * b.m00 + a.m01 * b.m10 + a.m02 * b.m20 + a.m03 * b.m30,
        m01: a.m00 * b.m01 + a.m01 * b.m11 + a.m02 * b.m21 + a.m03 * b.m31,
        m02: a.m00 * b.m02 + a.m01 * b.m12 + a.m02 * b.m22 + a.m03 * b.m32,
        m03: a.m00 * b.m03 + a.m01 * b.m13 + a.m02 * b.m23 + a.m03 * b.m33,
        m10: a.m10 * b.m00 + a.m11 * b.m10 + a.m12 * b.m20 + a.m13 * b.m30,
        m11: a.m10 * b.m01 + a.m11 * b.m11 + a.m12 * b.m21 + a.m13 * b.m31,
        m12: a.m10 * b.m02 + a.m11 * b.m12 + a.m12 * b.m22 + a.m13 * b.m32,
        m13: a.m10 * b.m03 + a.m11 * b.m13 + a.m12 * b.m23 + a.m13 * b.m33,
        m20: a.m20 * b.m00 + a.m21 * b.m10 + a.m22 * b.m20 + a.m23 * b.m30,
        m21: a.m20 * b.m01 + a.m21 * b.m11 + a.m22 * b.m21 + a.m23 * b.m31,
        m22: a.m20 * b.m02 + a.m21 * b.m12 + a.m22 * b.m22 + a.m23 * b.m32,
        m23: a.m20 * b.m03 + a.m21 * b.m13 + a.m22 * b.m23 + a.m23 * b.m33,
        m30: a.m30 * b.m00 + a.m31 * b.m10 + a.m32 * b.m20 + a.m33 * b.m30,
        m31: a.m30 * b.m01 + a.m31 * b.m11 + a.m32 * b.m21 + a.m33 * b.m31,
        m32: a.m30 * b.m02 + a.m31 * b.m12 + a.m32 * b.m22 + a.m33 * b.m32,
        m33: a.m30 * b.m03 + a.m31 * b.m13 + a.m32 * b.m23 + a.m33 * b.m33,
    }
}

/// The identity map.
pub open spec fn mat_identity() -> Mat {
    Mat {
        m00: 1, m01: 0, m02: 0, m03: 0,
        m10: 0, m11: 1, m12: 0, m13: 0,
        m20: 0, m21: 0, m22: 1, m23: 0,
        m30: 0, m31: 0, m32: 0, m33: 1,
    }
}

/// Translation by (x, y, z), in the units of the points it acts on.
pub open spec fn mat_translate(x: int, y: int, z: int) -> Mat {
    Mat {
        m00: 1, m01: 0, m02: 0, m03: x,
        m10: 0, m11: 1, m12: 0, m13: y,
        m20: 0, m21: 0, m22: 1, m23: z,
        m30: 0, m31: 0, m32: 0, m33: 1,
    }
}

/// Axis scaling with homogeneous weight `w`: the effective factors are sx / w, sy / w, sz / w.
pub open spec fn mat_scale(sx: int, sy: int, sz: int, w: int) -> Mat {
    Mat {
        m00: sx, m01: 0, m02: 0, m03: 0,
        m10: 0, m11: sy, m12: 0, m13: 0,
        m20: 0, m21: 0, m22: sz, m23: 0,
        m30: 0, m31: 0, m32: 0, m33: w,
    }
}

/// Rotation about the vertical axis by the angle whose sine and cosine, scaled by the homogeneous weight `w`, are `s` and `c`.
pub open spec fn mat_rotate_y(s: int, c: int, w: int) -> Mat {
    Mat {
        m00: c, m01: 0, m02: s, m03: 0,
        m10: 0, m11: w, m12: 0, m13: 0,
        m20: -s, m21: 0, m22: c, m23: 0,
        m30: 0, m31: 0, m32: 0, m33: w,
    }
}

/// Perspective projection with focal length one, looking down the negative z axis: the homogeneous weight of the image is -z, so the later divide maps (x, y, z) to (-x / z, -y / z).
pub open spec fn mat_perspective() -> Mat {
    Mat {
        m00: 1, m01: 0, m02: 0, m03: 0,
        m10: 0, m11: 1, m12: 0, m13: 0,
        m20: 0, m21: 0, m22: 1, m23: 0,
        m30: 0, m31: 0, m32: -1, m33: 0,
    }
}

/// Every entry of `m` lies within `k` of zero.
pub open spec fn bounded(m: Mat, k: int) -> bool {
    &&& -k <= m.m00 <= k
    &&& -k <= m.m01 <= k
    &&& -k <= m.m02 <= k
    &&& -k <= m.m03 <= k
    &&& -k <= m.m10 <= k
    &&& -k <= m.m11 <= k
    &&& -k <= m.m12 <= k
    &&& -k <= m.m13 <= k
    &&& -k <= m.m20 <= k
    &&& -k <= m.m21 <= k
    &&& -k <= m.m22 <= k
    &&& -k <= m.m23 <= k
    &&& -k <= m.m30 <= k
    &&& -k <= m.m31 <= k
    &&& -k <= m.m32 <= k
    &&& -k <= m.m33 <= k
}

/// Entry bound accepted by [`Transform::compose`]; inputs within it can be
/// multiplied without the 128-bit arithmetic overflowing.
pub const MAT_BOUND: i128 = 0x2000_0000_0000_0000;

/// An exact projective transform; entries are fixed-point integers.
#[derive(Clone, Copy, PartialEq, Eq, Structural, Debug)]
pub struct Transform {
    pub m00: i128,
    pub m01: i128,
    pub m02: i128,
    pub m03: i128,
    pub m10: i128,
    pub m11: i128,
    pub m12: i128,
    pub m13: i128,
    pub m20: i128,
    pub m21: i128,
    pub m22: i128,
    pub m23: i128,
    pub m30: i128,
    pub m31: i128,
    pub m32: i128,
    pub m33: i128,
}

impl View for Transform {
    type V = Mat;

    open spec fn view(&self) -> Mat {
        Mat {
            m00: self.m00 as int, m01: self.m01 as int, m02: self.m02 as int, m03: self.m03 as int,
            m10: self.m10 as int, m11: self.m11 as int, m12: self.m12 as int, m13: self.m13 as int,
            m20: self.m20 as int, m21: self.m21 as int, m22: self.m22 as int, m23: self.m23 as int,
            m30: self.m30 as int, m31: self.m31 as int, m32: self.m32 as int, m33: self.m33 as int,
        }
    }
}

/// Dot product of two rows of four, exact; the bound on the operands keeps
/// every intermediate inside i128.
fn dot4(a0: i128, a1: i128, a2: i128, a3: i128, b0: i128, b1: i128, b2: i128, b3: i128) -> (r:
    i128)
    requires
        -MAT_BOUND <= a0 <= MAT_BOUND,
        -MAT_BOUND <= a1 <= MAT_BOUND,
        -MAT_BOUND <= a2 <= MAT_BOUND,
        -MAT_BOUND <= a3 <= MAT_BOUND,
        -MAT_BOUND <= b0 <= MAT_BOUND,
        -MAT_BOUND <= b1 <= MAT_BOUND,
        -MAT_BOUND <= b2 <= MAT_BOUND,
        -MAT_BOUND <= b3 <= MAT_BOUND,
    ensures
        r == a0 * b0 + a1 * b1 + a2 * b2 + a3 * b3,
{
    proof {
        assert(-5316911983139663491615228241121378304 <= (a0 as int) * (b0 as int) <= 5316911983139663491615228241121378304)
            by (nonlinear_arith)
            requires
                -0x2000_0000_0000_0000 <= a0 as int <= 0x2000_0000_0000_0000,
                -0x2000_0000_0000_0000 <= b0 as int <= 0x2000_0000_0000_0000,
        ;
        assert(-5316911983139663491615228241121378304 <= (a1 as int) * (b1 as int) <= 5316911983139663491615228241121378304)
            by (nonlinear_arith)
            requires
                -0x2000_0000_0000_0000 <= a1 as int <= 0x2000_0000_0000_0000,
                -0x2000_0000_0000_0000 <= b1 as int <= 0x2000_0000_0000_0000,
        ;
        assert(-5316911983139663491615228241121378304 <= (a2 as int) * (b2 as int) <= 5316911983139663491615228241121378304)
            by (nonlinear_arith)
            requires
                -0x2000_0000_0000_0000 <= a2 as int <= 0x2000_0000_0000_0000,
                -0x2000_0000_0000_0000 <= b2 as int <= 0x2000_0000_0000_0000,
        ;
        assert(-5316911983139663491615228241121378304 <= (a3 as int) * (b3 as int) <= 5316911983139663491615228241121378304)
            by (nonlinear_arith)
            requires
                -0x2000_0000_0000_0000 <= a3 as int <= 0x2000_0000_0000_0000,
                -0x2000_0000_0000_0000 <= b3 as int <= 0x2000_0000_0000_0000,
        ;
    }
    a0 * b0 + a1 * b1 + a2 * b2 + a3 * b3
}

impl Transform {
    /// The identity transform.
    pub fn identity() -> (r: Transform)
        ensures
            r@ == mat_identity(),
    {
        Transform {
            m00: 1, m01: 0, m02: 0, m03: 0,
            m10: 0, m11: 1, m12: 0, m13: 0,
            m20: 0, m21: 0, m22: 1, m23: 0,
            m30: 0, m31: 0, m32: 0, m33: 1,
        }
    }

    /// Translation by (x, y, z), in the units of the points the transform
    /// acts on.
    pub fn translate(x: i64, y: i64, z: i64) -> (r: Transform)
        ensures
            r@ == mat_translate(x as int, y as int, z as int),
    {
        Transform {
            m00: 1, m01: 0, m02: 0, m03: x as i128,
            m10: 0, m11: 1, m12: 0, m13: y as i128,
            m20: 0, m21: 0, m22: 1, m23: z as i128,
            m30: 0, m31: 0, m32: 0, m33: 1,
        }
    }

    /// Scaling by the plain integer factors (sx, sy, sz).
    pub fn scale(sx: i64, sy: i64, sz: i64) -> (r: Transform)
        ensures
            r@ == mat_scale(sx as int, sy as int, sz as int, 1),
    {
        Transform {
            m00: sx as i128, m01: 0, m02: 0, m03: 0,
            m10: 0, m11: sy as i128, m12: 0, m13: 0,
            m20: 0, m21: 0, m22: sz as i128, m23: 0,
            m30: 0, m31: 0, m32: 0, m33: 1,
        }
    }

    /// Scaling by fixed-point factors: the effective factor on each axis is
    /// the argument divided by [`SCALE`].
    pub fn scale_fp(sx: i64, sy: i64, sz: i64) -> (r: Transform)
        ensures
            r@ == mat_scale(sx as int, sy as int, sz as int, SCALE as int),
    {
        Transform {
            m00: sx as i128, m01: 0, m02: 0, m03: 0,
            m10: 0, m11: sy as i128, m12: 0, m13: 0,
            m20: 0, m21: 0, m22: sz as i128, m23: 0,
            m30: 0, m31: 0, m32: 0, m33: SCALE as i128,
        }
    }

    /// Rotation about the vertical axis: `s` and `c` are the sine and cosine
    /// of the angle in fixed point (so their magnitude is at most [`SCALE`],
    /// which becomes the homogeneous weight).
    pub fn rotate_y(s: i64, c: i64) -> (r: Transform)
        ensures
            r@ == mat_rotate_y(s as int, c as int, SCALE as int),
    {
        Transform {
            m00: c as i128, m01: 0, m02: s as i128, m03: 0,
            m10: 0, m11: SCALE as i128, m12: 0, m13: 0,
            m20: -(s as i128), m21: 0, m22: c as i128, m23: 0,
            m30: 0, m31: 0, m32: 0, m33: SCALE as i128,
        }
    }

    /// The fixed perspective projection of the pipeline: focal length one,
    /// camera looking down the negative z axis, no near or far clipping.
    pub fn perspective() -> (r: Transform)
        ensures
            r@ == mat_perspective(),
    {
        Transform {
            m00: 1, m01: 0, m02: 0, m03: 0,
            m10: 0, m11: 1, m12: 0, m13: 0,
            m20: 0, m21: 0, m22: 1, m23: 0,
            m30: 0, m31: 0, m32: -1, m33: 0,
        }
    }

    /// Composition: the resulting transform applies `other` first, then
    /// `self`. Exact integer matrix product.
    pub fn compose(&self, other: &Transform) -> (r: Transform)
        requires
            bounded(self@, MAT_BOUND as int),
            bounded(other@, MAT_BOUND as int),
        ensures
            r@ == mat_mul(self@, other@),
    {
        Transform {
            m00: dot4(self.m00, self.m01, self.m02, self.m03, other.m00, other.m10, other.m20, other.m30),
            m01: dot4(self.m00, self.m01, self.m02, self.m03, other.m01, other.m11, other.m21, other.m31),
            m02: dot4(self.m00, self.m01, self.m02, self.m03, other.m02, other.m12, other.m22, other.m32),
            m03: dot4(self.m00, self.m01, self.m02, self.m03, other.m03, other.m13, other.m23, other.m33),
            m10: dot4(self.m10, self.m11, self.m12, self.m13, other.m00, other.m10, other.m20, other.m30),
            m11: dot4(self.m10, self.m11, self.m12, self.m13, other.m01, other.m11, other.m21, other.m31),
            m12: dot4(self.m10, self.m11, self.m12, self.m13, other.m02, other.m12, other.m22, other.m32),
            m13: dot4(self.m10, self.m11, self.m12, self.m13, other.m03, other.m13, other.m23, other.m33),
            m20: dot4(self.m20, self.m21, self.m22, self.m23, other.m00, other.m10, other.m20, other.m30),
            m21: dot4(self.m20, self.m21, self.m22, self.m23, other.m01, other.m11, other.m21, other.m31),
            m22: dot4(self.m20, self.m21, self.m22, self.m23, other.m02, other.m12, other.m22, other.m32),
            m23: dot4(self.m20, self.m21, self.m22, self.m23, other.m03, other.m13, other.m23, other.m33),
            m30: dot4(self.m30, self.m31, self.m32, self.m33, other.m00, other.m10, other.m20, other.m30),
            m31: dot4(self.m30, self.m31, self.m32, self.m33, other.m01, other.m11, other.m21, other.m31),
            m32: dot4(self.m30, self.m31, self.m32, self.m33, other.m02, other.m12, other.m22, other.m32),
            m33: dot4(self.m30, self.m31, self.m32, self.m33, other.m03, other.m13, other.m23, other.m33),
        }
    }
}

/// Multiplication of integers is associative.
proof fn lemma_mul3(a: int, b: int, c: int)
    by (nonlinear_arith)
    ensures
        (a * b) * c == a * (b * c),
{
}

/// A four-term sum distributes over multiplication on the right.
proof fn lemma_distrib4_right(p: int, q: int, r: int, s: int, t: int)
    by (nonlinear_arith)
    ensures
        (p + q + r + s) * t == p * t + q * t + r * t + s * t,
{
}

/// A four-term sum distributes over multiplication on the left.
proof fn lemma_distrib4_left(t: int, p: int, q: int, r: int, s: int)
    by (nonlinear_arith)
    ensures
        t * (p + q + r + s) == t * p + t * q + t * r + t * s,
{
}

/// Entry bound that [`base_pipeline`] guarantees of its result; small enough
/// to compose with any camera transform within [`MAT_BOUND`].
pub const STATIC_BOUND: i128 = 1_000_000;

/// The screen-space stage: translate the origin to the screen center, after
/// scaling by half the smaller screen edge uniformly in x and y, so the
/// projected unit square fills the window while preserving aspect ratio.
/// Built once at initialization from a validated configuration.
pub fn screen_transform(config: &Config) -> (r: Transform)
    requires
        config.wf(),
    ensures
        ({
            let half = (if config.width <= config.height {
                config.width
            } else {
                config.height
            }) as int / 2;
            r@ == mat_mul(
                mat_translate(config.width as int / 2, config.height as int / 2, 0),
                mat_scale(half, half, 1, 1),
            )
        }),
        bounded(r@, STATIC_BOUND as int),
{
    let smaller = if config.width <= config.height {
        config.width
    } else {
        config.height
    };
    let half = (smaller / 2) as i64;
    let centered = Transform::translate((config.width / 2) as i64, (config.height / 2) as i64, 0);
    let scaled = Transform::scale(half, half, 1);
    centered.compose(&scaled)
}

/// The whole initialization-time pipeline: screen mapping composed with the
/// fixed perspective projection and the identity placeholder for the
/// per-frame camera stage, exactly in that order.
pub fn base_pipeline(config: &Config) -> (r: Transform)
    requires
        config.wf(),
    ensures
        ({
            let half = (if config.width <= config.height {
                config.width
            } else {
                config.height
            }) as int / 2;
            let screen = mat_mul(
                mat_translate(config.width as int / 2, config.height as int / 2, 0),
                mat_scale(half, half, 1, 1),
            );
            r@ == mat_mul(mat_mul(screen, mat_perspective()), mat_identity())
        }),
        bounded(r@, STATIC_BOUND as int),
{
    let screen = screen_transform(config);
    let projected = screen.compose(&Transform::perspective());
    projected.compose(&Transform::identity())
}

/// One entry of a triple product, grouped both ways: the dot product of a
/// row with the columns of a product matrix equals the dot product of the
/// row-times-matrix with the final column.
proof fn lemma_dot_assoc(
    a0: int, a1: int, a2: int, a3: int,
    b00: int, b01: int, b02: int, b03: int,
    b10: int, b11: int, b12: int, b13: int,
    b20: int, b21: int, b22: int, b23: int,
    b30: int, b31: int, b32: int, b33: int,
    c0: int, c1: int, c2: int, c3: int,
)
    ensures
        (a0 * b00 + a1 * b10 + a2 * b20 + a3 * b30) * c0 + (a0 * b01 + a1 * b11 + a2 * b21 + a3 * b31) * c1 + (a0 * b02 + a1 * b12 + a2 * b22 + a3 * b32) * c2 + (a0 * b03 + a1 * b13 + a2 * b23 + a3 * b33) * c3
            == a0 * (b00 * c0 + b01 * c1 + b02 * c2 + b03 * c3) + a1 * (b10 * c0 + b11 * c1 + b12 * c2 + b13 * c3) + a2 * (b20 * c0 + b21 * c1 + b22 * c2 + b23 * c3) + a3 * (b30 * c0 + b31 * c1 + b32 * c2 + b33 * c3),
{
    lemma_distrib4_right(a0 * b00, a1 * b10, a2 * b20, a3 * b30, c0);
    lemma_distrib4_right(a0 * b01, a1 * b11, a2 * b21, a3 * b31, c1);
    lemma_distrib4_right(a0 * b02, a1 * b12, a2 * b22, a3 * b32, c2);
    lemma_distrib4_right(a0 * b03, a1 * b13, a2 * b23, a3 * b33, c3);
    lemma_distrib4_left(a0, b00 * c0, b01 * c1, b02 * c2, b03 * c3);
    lemma_distrib4_left(a1, b10 * c0, b11 * c1, b12 * c2, b13 * c3);
    lemma_distrib4_left(a2, b20 * c0, b21 * c1, b22 * c2, b23 * c3);
    lemma_distrib4_left(a3, b30 * c0, b31 * c1, b32 * c2, b33 * c3);
    lemma_mul3(a0, b00, c0);
    lemma_mul3(a0, b01, c1);
    lemma_mul3(a0, b02, c2);
    lemma_mul3(a0, b03, c3);
    lemma_mul3(a1, b10, c0);
    lemma_mul3(a1, b11, c1);
    lemma_mul3(a1, b12, c2);
    lemma_mul3(a1, b13, c3);
    lemma_mul3(a2, b20, c0);
    lemma_mul3(a2, b21, c1);
    lemma_mul3(a2, b22, c2);
    lemma_mul3(a2, b23, c3);
    lemma_mul3(a3, b30, c0);
    lemma_mul3(a3, b31, c1);
    lemma_mul3(a3, b32, c2);
    lemma_mul3(a3, b33, c3);
}

/// Composition of transforms is associative: grouping the screen and
/// perspective stages first, or the perspective and camera stages first,
/// yields the same frame transform. Holds for every three matrices.
pub proof fn lemma_mat_mul_assoc(a: Mat, b: Mat, c: Mat)
    ensures
        mat_mul(mat_mul(a, b), c) == mat_mul(a, mat_mul(b, c)),
{
    lemma_dot_assoc(a.m00, a.m01, a.m02, a.m03, b.m00, b.m01, b.m02, b.m03, b.m10, b.m11, b.m12, b.m13, b.m20, b.m21, b.m22, b.m23, b.m30, b.m31, b.m32, b.m33, c.m00, c.m10, c.m20, c.m30);
    lemma_dot_assoc(a.m00, a.m01, a.m02, a.m03, b.m00, b.m01, b.m02, b.m03, b.m10, b.m11, b.m12, b.m13, b.m20, b.m21, b.m22, b.m23, b.m30, b.m31, b.m32, b.m33, c.m01, c.m11, c.m21, c.m31);
    lemma_dot_assoc(a.m00, a.m01, a.m02, a.m03, b.m00, b.m01, b.m02, b.m03, b.m10, b.m11, b.m12, b.m13, b.m20, b.m21, b.m22, b.m23, b.m30, b.m31, b.m32, b.m33, c.m02, c.m12, c.m22, c.m32);
    lemma_dot_assoc(a.m00, a.m01, a.m02, a.m03, b.m00, b.m01, b.m02, b.m03, b.m10, b.m11, b.m12, b.m13, b.m20, b.m21, b.m22, b.m23, b.m30, b.m31, b.m32, b.m33, c.m03, c.m13, c.m23, c.m33);
    lemma_dot_assoc(a.m10, a.m11, a.m12, a.m13, b.m00, b.m01, b.m02, b.m03, b.m10, b.m11, b.m12, b.m13, b.m20, b.m21, b.m22, b.m23, b.m30, b.m31, b.m32, b.m33, c.m00, c.m10, c.m20, c.m30);
    lemma_dot_assoc(a.m10, a.m11, a.m12, a.m13, b.m00, b.m01, b.m02, b.m03, b.m10, b.m11, b.m12, b.m13, b.m20, b.m21, b.m22, b.m23, b.m30, b.m31, b.m32, b.m33, c.m01, c.m11, c.m21, c.m31);
    lemma_dot_assoc(a.m10, a.m11, a.m12, a.m13, b.m00, b.m01, b.m02, b.m03, b.m10, b.m11, b.m12, b.m13, b.m20, b.m21, b.m22, b.m23, b.m30, b.m31, b.m32, b.m33, c.m02, c.m12, c.m22, c.m32);
    lemma_dot_assoc(a.m10, a.m11, a.m12, a.m13, b.m00, b.m01, b.m02, b.m03, b.m10, b.m11, b.m12, b.m13, b.m20, b.m21, b.m22, b.m23, b.m30, b.m31, b.m32, b.m33, c.m03, c.m13, c.m23, c.m33);
    lemma_dot_assoc(a.m20, a.m21, a.m22, a.m23, b.m00, b.m01, b.m02, b.m03, b.m10, b.m11, b.m12, b.m13, b.m20, b.m21, b.m22, b.m23, b.m30, b.m31, b.m32, b.m33, c.m00, c.m10, c.m20, c.m30);
    lemma_dot_assoc(a.m20, a.m21, a.m22, a.m23, b.m00, b.m01, b.m02, b.m03, b.m10, b.m11, b.m12, b.m13, b.m20, b.m21, b.m22, b.m23, b.m30, b.m31, b.m32, b.m33, c.m01, c.m11, c.m21, c.m31);
    lemma_dot_assoc(a.m20, a.m21, a.m22, a.m23, b.m00, b.m01, b.m02, b.m03, b.m10, b.m11, b.m12, b.m13, b.m20, b.m21, b.m22, b.m23, b.m30, b.m31, b.m32, b.m33, c.m02, c.m12, c.m22, c.m32);
    lemma_dot_assoc(a.m20, a.m21, a.m22, a.m23, b.m00, b.m01, b.m02, b.m03, b.m10, b.m11, b.m12, b.m13, b.m20, b.m21, b.m22, b.m23, b.m30, b.m31, b.m32, b.m33, c.m03, c.m13, c.m23, c.m33);
    lemma_dot_assoc(a.m30, a.m31, a.m32, a.m33, b.m00, b.m01, b.m02, b.m03, b.m10, b.m11, b.m12, b.m13, b.m20, b.m21, b.m22, b.m23, b.m30, b.m31, b.m32, b.m33, c.m00, c.m10, c.m20, c.m30);
    lemma_dot_assoc(a.m30, a.m31, a.m32, a.m33, b.m00, b.m01, b.m02, b.m03, b.m10, b.m11, b.m12, b.m13, b.m20, b.m21, b.m22, b.m23, b.m30, b.m31, b.m32, b.m33, c.m01, c.m11, c.m21, c.m31);
    lemma_dot_assoc(a.m30, a.m31, a.m32, a.m33, b.m00, b.m01, b.m02, b.m03, b.m10, b.m11, b.m12, b.m13, b.m20, b.m21, b.m22, b.m23, b.m30, b.m31, b.m32, b.m33, c.m02, c.m12, c.m22, c.m32);
    lemma_dot_assoc(a.m30, a.m31, a.m32, a.m33, b.m00, b.m01, b.m02, b.m03, b.m10, b.m11, b.m12, b.m13, b.m20, b.m21, b.m22, b.m23, b.m30, b.m31, b.m32, b.m33, c.m03, c.m13, c.m23, c.m33);
    assert(mat_mul(mat_mul(a, b), c) =~= mat_mul(a, mat_mul(b, c)));
}

/// A dot product of bounded rows is bounded by four times the product of
/// the bounds.
proof fn lemma_dot_bound(
    a0: int, a1: int, a2: int, a3: int, b0: int, b1: int, b2: int, b3: int, x: int, y: int,
)
    by (nonlinear_arith)
    requires
        0 <= x,
        0 <= y,
        -x <= a0 <= x,
        -x <= a1 <= x,
        -x <= a2 <= x,
        -x <= a3 <= x,
        -y <= b0 <= y,
        -y <= b1 <= y,
        -y <= b2 <= y,
        -y <= b3 <= y,
    ensures
        -(4 * x * y) <= a0 * b0 + a1 * b1 + a2 * b2 + a3 * b3 <= 4 * x * y,
{
}

/// Multiplying matrices bounded by x and y gives a matrix bounded by
/// 4 * x * y.
pub proof fn lemma_mat_mul_bounded(a: Mat, b: Mat, x: int, y: int)
    requires
        0 <= x,
        0 <= y,
        bounded(a, x),
        bounded(b, y),
    ensures
        bounded(mat_mul(a, b), 4 * x * y),
{
    lemma_dot_bound(a.m00, a.m01, a.m02, a.m03, b.m00, b.m10, b.m20, b.m30, x, y);
    lemma_dot_bound(a.m00, a.m01, a.m02, a.m03, b.m01, b.m11, b.m21, b.m31, x, y);
    lemma_dot_bound(a.m00, a.m01, a.m02, a.m03, b.m02, b.m12, b.m22, b.m32, x, y);
    lemma_dot_bound(a.m00, a.m01, a.m02, a.m03, b.m03, b.m13, b.m23, b.m33, x, y);
    lemma_dot_bound(a.m10, a.m11, a.m12, a.m13, b.m00, b.m10, b.m20, b.m30, x, y);
    lemma_dot_bound(a.m10, a.m11, a.m12, a.m13, b.m01, b.m11, b.m21, b.m31, x, y);
    lemma_dot_bound(a.m10, a.m11, a.m12, a.m13, b.m02, b.m12, b.m22, b.m32, x, y);
    lemma_dot_bound(a.m10, a.m11, a.m12, a.m13, b.m03, b.m13, b.m23, b.m33, x, y);
    lemma_dot_bound(a.m20, a.m21, a.m22, a.m23, b.m00, b.m10, b.m20, b.m30, x, y);
    lemma_dot_bound(a.m20, a.m21, a.m22, a.m23, b.m01, b.m11, b.m21, b.m31, x, y);
    lemma_dot_bound(a.m20, a.m21, a.m22, a.m23, b.m02, b.m12, b.m22, b.m32, x, y);
    lemma_dot_bound(a.m20, a.m21, a.m22, a.m23, b.m03, b.m13, b.m23, b.m33, x, y);
    lemma_dot_bound(a.m30, a.m31, a.m32, a.m33, b.m00, b.m10, b.m20, b.m30, x, y);
    lemma_dot_bound(a.m30, a.m31, a.m32, a.m33, b.m01, b.m11, b.m21, b.m31, x, y);
    lemma_dot_bound(a.m30, a.m31, a.m32, a.m33, b.m02, b.m12, b.m22, b.m32, x, y);
    lemma_dot_bound(a.m30, a.m31, a.m32, a.m33, b.m03, b.m13, b.m23, b.m33, x, y);
}

} // verus!
