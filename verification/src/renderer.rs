//! The projector: owns the projection configuration, keeps the cached
//! perspective matrix in sync with it, and maps a model-space point to a
//! screen coordinate through the fixed pipeline
//! rotate -> translate -> project -> perspective-divide -> viewport-map.

use crate::fx::{
    fx_div_i, fx_mul_i, in_i64, lemma_div_exact, lemma_fx_div_bound, lemma_fx_mul_bound,
    lemma_fx_mul_one, lemma_fx_mul_zero, Fx, FX_SCALE,
};
use crate::mat::{mat_bounded, mat_vec, Mat4};
use crate::transformation::{
    fx0, fx1, new_perspective, new_rotation_x, new_rotation_y, new_rotation_z, new_translation,
    lemma_rotation_mats_bounded, persp_af, persp_aspect, persp_q1, persp_q2, perspective_mat,
    rotation_x_mat, rotation_y_mat, rotation_z_mat, translation_mat,
};
use crate::vec::{vec_bounded, Vec4};
use vstd::prelude::*;

verus! {

/// Magnitude bound kept on every entry of the cached perspective matrix
/// (65536 whole units).
pub const PERSP_ENTRY_BOUND: i64 = 65536 * FX_SCALE;

/// Magnitude bound on the point coordinates the projector accepts
/// (4 whole units; the unit-cube model uses 0 and 1).
pub const POINT_BOUND: i64 = 4 * FX_SCALE;

/// The fixed camera distance that pushes the model in front of the near
/// plane.
pub const CAMERA_DISTANCE: i32 = 3;

/// The angle of the default field of view, a quarter turn, in `2^-32`
/// radian units.
pub const FRAC_PI_2_BITS: i64 = 6746518852;

/// The default near depth, one tenth, in `2^-32` units.
pub const Z_NEAR_DEFAULT_BITS: i64 = 429496730;

/// The cosines and sines of the three rotation angles, as the host's
/// trigonometry produced them; each is at most one in magnitude.
#[derive(Clone, Copy, Debug, PartialEq, Eq, Structural)]
pub struct Trig {
    pub cos_x: Fx,
    pub sin_x: Fx,
    pub cos_y: Fx,
    pub sin_y: Fx,
    pub cos_z: Fx,
    pub sin_z: Fx,
}

/// Whether every trigonometric value is at most one in magnitude.
pub open spec fn trig_wf(t: Trig) -> bool {
    &&& -FX_SCALE <= t.cos_x.bits <= FX_SCALE
    &&& -FX_SCALE <= t.sin_x.bits <= FX_SCALE
    &&& -FX_SCALE <= t.cos_y.bits <= FX_SCALE
    &&& -FX_SCALE <= t.sin_y.bits <= FX_SCALE
    &&& -FX_SCALE <= t.cos_z.bits <= FX_SCALE
    &&& -FX_SCALE <= t.sin_z.bits <= FX_SCALE
}

/// The trigonometric values of three zero angles.
pub open spec fn identity_trig() -> Trig {
    Trig { cos_x: fx1(), sin_x: fx0(), cos_y: fx1(), sin_y: fx0(), cos_z: fx1(), sin_z: fx0() }
}

impl Trig {
    /// The trigonometric values for zero rotation about every axis.
    pub fn identity() -> (r: Trig)
        ensures
            r == identity_trig(),
            trig_wf(r),
    {
        Trig {
            cos_x: Fx::one(),
            sin_x: Fx::zero(),
            cos_y: Fx::one(),
            sin_y: Fx::zero(),
            cos_z: Fx::one(),
            sin_z: Fx::zero(),
        }
    }
}

/// The origin of model space in homogeneous coordinates.
pub open spec fn origin_point() -> Vec4 {
    Vec4 { x: fx0(), y: fx0(), z: fx0(), w: fx1() }
}

/// The camera translation used by the pipeline.
pub open spec fn camera_mat() -> Mat4 {
    translation_mat(fx0(), fx0(), Fx { bits: (CAMERA_DISTANCE * FX_SCALE) as i64 })
}

/// Half of an extent stored as a scalar: `e * 0.5`.
pub open spec fn half_extent(e: int) -> int {
    fx_mul_i(e, (FX_SCALE / 2) as int)
}

/// The projection state: viewport extents, projection parameters, and the
/// cached perspective matrix.
pub struct Renderer {
    pub width: Fx,
    pub height: Fx,
    pub fov: Fx,
    pub z_near: Fx,
    pub z_far: Fx,
    pub focal: Fx,
    pub perspective: Mat4,
}

impl Renderer {
    /// Well-formedness: the extents and parameters are in range, every
    /// perspective entry fits its bound, and the cached matrix is exactly
    /// the one the current parameters produce.  A stale cache would
    /// falsify the last conjunct, so every method that changes fov,
    /// zNear, or zFar must rebuild the matrix.
    pub open spec fn wf(self) -> bool {
        &&& FX_SCALE <= self.width.bits <= 65536 * FX_SCALE
        &&& FX_SCALE <= self.height.bits <= 65536 * FX_SCALE
        &&& 0 < self.z_near.bits < self.z_far.bits
        &&& in_i64(fx_mul_i(-self.z_far.bits, self.z_near.bits as int))
        &&& -PERSP_ENTRY_BOUND <= persp_aspect(self.width.bits as int, self.height.bits as int)
            <= PERSP_ENTRY_BOUND
        &&& -PERSP_ENTRY_BOUND <= self.focal.bits <= PERSP_ENTRY_BOUND
        &&& -PERSP_ENTRY_BOUND <= persp_af(
            self.width.bits as int,
            self.height.bits as int,
            self.focal.bits as int,
        ) <= PERSP_ENTRY_BOUND
        &&& -PERSP_ENTRY_BOUND <= persp_q1(self.z_near.bits as int, self.z_far.bits as int)
            <= PERSP_ENTRY_BOUND
        &&& -PERSP_ENTRY_BOUND <= persp_q2(self.z_near.bits as int, self.z_far.bits as int)
            <= PERSP_ENTRY_BOUND
        &&& self.perspective == perspective_mat(
            self.width,
            self.height,
            self.focal,
            self.z_near,
            self.z_far,
        )
    }

    /// Every entry of a well-formed renderer's perspective matrix is
    /// within the entry bound.
    pub proof fn lemma_perspective_bounded(self)
        requires
            self.wf(),
        ensures
            mat_bounded(self.perspective, PERSP_ENTRY_BOUND as int),
    {
    }

    /// A renderer over a `width` by `height` viewport, with the default
    /// projection parameters: a quarter-turn field of view (whose focal
    /// term is exactly one), near depth one tenth, far depth a thousand.
    pub fn new(width: u32, height: u32) -> (r: Renderer)
        requires
            1 <= width <= 65536,
            1 <= height <= 65536,
        ensures
            r.wf(),
            r.width.bits == width * FX_SCALE,
            r.height.bits == height * FX_SCALE,
            r.fov.bits == FRAC_PI_2_BITS,
            r.focal.bits == FX_SCALE,
            r.z_near.bits == Z_NEAR_DEFAULT_BITS,
            r.z_far.bits == 1000 * FX_SCALE,
    {
        let w = Fx { bits: (width as i64) * FX_SCALE };
        let h = Fx { bits: (height as i64) * FX_SCALE };
        let focal = Fx::one();
        let z_near = Fx { bits: Z_NEAR_DEFAULT_BITS };
        let z_far = Fx::from_int(1000);
        proof {
            lemma_fx_div_bound(h.bits as int, w.bits as int, 65536 * FX_SCALE, FX_SCALE as int);
            lemma_fx_mul_one(persp_aspect(w.bits as int, h.bits as int));
            lemma_div_exact(
                4294967296000int * 429496730,
                FX_SCALE as int,
                429496730000,
                0,
            );
            assert(fx_mul_i(-z_far.bits, z_near.bits as int) == -429496730000);
            lemma_div_exact(
                4294967296000int * 0x1_0000_0000,
                4294537799270,
                4295396835,
                2937328305550,
            );
            assert(persp_q1(z_near.bits as int, z_far.bits as int) == 4295396835);
            lemma_div_exact(
                429496730000int * 0x1_0000_0000,
                4294537799270,
                429539683,
                4158988648590,
            );
            assert(persp_q2(z_near.bits as int, z_far.bits as int) == -429539683);
        }
        let perspective = new_perspective(w, h, focal, z_near, z_far);
        Renderer {
            width: w,
            height: h,
            fov: Fx { bits: FRAC_PI_2_BITS },
            z_near,
            z_far,
            focal,
            perspective,
        }
    }

    /// The current field of view, in `2^-32` radian units.
    pub fn fov(&self) -> (r: Fx)
        ensures
            r == self.fov,
    {
        self.fov
    }

    /// The current near depth.
    pub fn z_near(&self) -> (r: Fx)
        ensures
            r == self.z_near,
    {
        self.z_near
    }

    /// The current far depth.
    pub fn z_far(&self) -> (r: Fx)
        ensures
            r == self.z_far,
    {
        self.z_far
    }

    /// Stores a new field of view together with its focal term
    /// `1 / tan(fov/2)` and rebuilds the perspective matrix, as the
    /// cache rule demands.
    pub fn set_fov(&mut self, fov: Fx, focal: Fx)
        requires
            old(self).wf(),
            -PERSP_ENTRY_BOUND <= focal.bits <= PERSP_ENTRY_BOUND,
            -PERSP_ENTRY_BOUND <= persp_af(
                old(self).width.bits as int,
                old(self).height.bits as int,
                focal.bits as int,
            ) <= PERSP_ENTRY_BOUND,
        ensures
            final(self).wf(),
            final(self).fov == fov,
            final(self).focal == focal,
            final(self).width == old(self).width,
            final(self).height == old(self).height,
            final(self).z_near == old(self).z_near,
            final(self).z_far == old(self).z_far,
            final(self).perspective == perspective_mat(
                old(self).width,
                old(self).height,
                focal,
                old(self).z_near,
                old(self).z_far,
            ),
    {
        self.fov = fov;
        self.focal = focal;
        self.perspective = new_perspective(
            self.width,
            self.height,
            self.focal,
            self.z_near,
            self.z_far,
        );
    }

    /// Stores a new near depth and rebuilds the perspective matrix.
    pub fn set_z_near(&mut self, z_near: Fx)
        requires
            old(self).wf(),
            0 < z_near.bits < old(self).z_far.bits,
            in_i64(fx_mul_i(-old(self).z_far.bits, z_near.bits as int)),
            -PERSP_ENTRY_BOUND <= persp_q1(z_near.bits as int, old(self).z_far.bits as int)
                <= PERSP_ENTRY_BOUND,
            -PERSP_ENTRY_BOUND <= persp_q2(z_near.bits as int, old(self).z_far.bits as int)
                <= PERSP_ENTRY_BOUND,
        ensures
            final(self).wf(),
            final(self).z_near == z_near,
            final(self).width == old(self).width,
            final(self).height == old(self).height,
            final(self).fov == old(self).fov,
            final(self).focal == old(self).focal,
            final(self).z_far == old(self).z_far,
            final(self).perspective == perspective_mat(
                old(self).width,
                old(self).height,
                old(self).focal,
                z_near,
                old(self).z_far,
            ),
    {
        self.z_near = z_near;
        self.perspective = new_perspective(
            self.width,
            self.height,
            self.focal,
            self.z_near,
            self.z_far,
        );
    }

    /// Stores a new far depth and rebuilds the perspective matrix.
    pub fn set_z_far(&mut self, z_far: Fx)
        requires
            old(self).wf(),
            old(self).z_near.bits < z_far.bits,
            in_i64(fx_mul_i(-z_far.bits, old(self).z_near.bits as int)),
            -PERSP_ENTRY_BOUND <= persp_q1(old(self).z_near.bits as int, z_far.bits as int)
                <= PERSP_ENTRY_BOUND,
            -PERSP_ENTRY_BOUND <= persp_q2(old(self).z_near.bits as int, z_far.bits as int)
                <= PERSP_ENTRY_BOUND,
        ensures
            final(self).wf(),
            final(self).z_far == z_far,
            final(self).width == old(self).width,
            final(self).height == old(self).height,
            final(self).fov == old(self).fov,
            final(self).focal == old(self).focal,
            final(self).z_near == old(self).z_near,
            final(self).perspective == perspective_mat(
                old(self).width,
                old(self).height,
                old(self).focal,
                old(self).z_near,
                z_far,
            ),
    {
        self.z_far = z_far;
        self.perspective = new_perspective(
            self.width,
            self.height,
            self.focal,
            self.z_near,
            self.z_far,
        );
    }

    /// What the matrix pipeline yields for a point: rotated about the
    /// three axes in order, translated by the camera distance, then
    /// multiplied by the cached perspective matrix.
    pub open spec fn pipeline_vec(self, p: Vec4, t: Trig) -> Vec4 {
        let r1 = mat_vec(rotation_x_mat(t.cos_x, t.sin_x), p);
        let r2 = mat_vec(rotation_y_mat(t.cos_y, t.sin_y), r1);
        let r3 = mat_vec(rotation_z_mat(t.cos_z, t.sin_z), r2);
        let r4 = mat_vec(camera_mat(), r3);
        mat_vec(self.perspective, r4)
    }

    /// Where the pipeline puts a point on the screen: the perspective
    /// division by the homogeneous w, then the viewport map
    /// `s = q * halfExtent + halfExtent`.  `None` exactly when w is zero
    /// or a coordinate leaves the scalar range.
    pub open spec fn screen_of(self, p: Vec4, t: Trig) -> Option<(Fx, Fx)> {
        let r = self.pipeline_vec(p, t);
        if r.w.bits == 0 {
            None
        } else {
            let xq = fx_div_i(r.x.bits as int, r.w.bits as int);
            let yq = fx_div_i(r.y.bits as int, r.w.bits as int);
            let hw = half_extent(self.width.bits as int);
            let hh = half_extent(self.height.bits as int);
            if !in_i64(xq) || !in_i64(yq) {
                None
            } else {
                let sx = fx_mul_i(xq, hw);
                let sy = fx_mul_i(yq, hh);
                if !in_i64(sx) || !in_i64(sy) || !in_i64(sx + hw) || !in_i64(sy + hh) {
                    None
                } else {
                    Some((Fx { bits: (sx + hw) as i64 }, Fx { bits: (sy + hh) as i64 }))
                }
            }
        }
    }

    /// Projects one model-space point to device coordinates under the
    /// given rotation.  Returns `None` exactly when the homogeneous w
    /// component is zero or a screen coordinate leaves the scalar range.
    pub fn transform_2d(&self, point: &Vec4, t: &Trig) -> (r: Option<(Fx, Fx)>)
        requires
            self.wf(),
            trig_wf(*t),
            vec_bounded(*point, POINT_BOUND as int),
        ensures
            r == self.screen_of(*point, *t),
    {
        let m1 = new_rotation_x(t.cos_x, t.sin_x);
        let m2 = new_rotation_y(t.cos_y, t.sin_y);
        let m3 = new_rotation_z(t.cos_z, t.sin_z);
        let m5 = new_translation(Fx::zero(), Fx::zero(), Fx::from_int(CAMERA_DISTANCE));
        proof {
            lemma_rotation_mats_bounded(t.cos_x, t.sin_x);
            lemma_rotation_mats_bounded(t.cos_y, t.sin_y);
            lemma_rotation_mats_bounded(t.cos_z, t.sin_z);
            crate::mat::lemma_mul_fits(m1, *point, FX_SCALE as int, POINT_BOUND as int);
        }
        let r1 = m1.mul(point);
        proof {
            crate::mat::lemma_mul_fits(m2, r1, FX_SCALE as int, 4 * POINT_BOUND as int);
        }
        let r2 = m2.mul(&r1);
        proof {
            crate::mat::lemma_mul_fits(m3, r2, FX_SCALE as int, 16 * POINT_BOUND as int);
        }
        let r3 = m3.mul(&r2);
        proof {
            crate::mat::lemma_mul_fits(m5, r3, POINT_BOUND as int, 64 * POINT_BOUND as int);
        }
        let r4 = m5.mul(&r3);
        proof {
            self.lemma_perspective_bounded();
            crate::mat::lemma_mul_fits(
                self.perspective,
                r4,
                PERSP_ENTRY_BOUND as int,
                256 * POINT_BOUND as int,
            );
        }
        let r5 = self.perspective.mul(&r4);
        if r5.w.bits == 0 {
            return None;
        }
        let xq = match r5.x.checked_div(r5.w) {
            Some(v) => v,
            None => {
                return None;
            },
        };
        let yq = match r5.y.checked_div(r5.w) {
            Some(v) => v,
            None => {
                return None;
            },
        };
        proof {
            lemma_fx_mul_bound(
                self.width.bits as int,
                (FX_SCALE / 2) as int,
                65536 * FX_SCALE,
                (FX_SCALE / 2) as int,
            );
            lemma_fx_mul_bound(
                self.height.bits as int,
                (FX_SCALE / 2) as int,
                65536 * FX_SCALE,
                (FX_SCALE / 2) as int,
            );
        }
        let hw = self.width.mul(Fx::half());
        let hh = self.height.mul(Fx::half());
        let sx = match xq.checked_mul(hw) {
            Some(v) => v,
            None => {
                return None;
            },
        };
        let sy = match yq.checked_mul(hh) {
            Some(v) => v,
            None => {
                return None;
            },
        };
        let px = match sx.checked_add(hw) {
            Some(v) => v,
            None => {
                return None;
            },
        };
        let py = match sy.checked_add(hh) {
            Some(v) => v,
            None => {
                return None;
            },
        };
        Some((px, py))
    }

    /// Validates a new field of view's focal term against the entry
    /// bound and applies it only when the recomputed entry stays
    /// representable; the configuration is untouched otherwise.
    pub fn set_fov_checked(&mut self, fov: Fx, focal: Fx) -> (ok: bool)
        requires
            old(self).wf(),
        ensures
            final(self).wf(),
            ok <==> (-PERSP_ENTRY_BOUND <= focal.bits <= PERSP_ENTRY_BOUND
                && -PERSP_ENTRY_BOUND <= persp_af(
                old(self).width.bits as int,
                old(self).height.bits as int,
                focal.bits as int,
            ) <= PERSP_ENTRY_BOUND),
            !ok ==> *final(self) == *old(self),
            ok ==> *final(self) == (Renderer {
                fov,
                focal,
                perspective: perspective_mat(
                    old(self).width,
                    old(self).height,
                    focal,
                    old(self).z_near,
                    old(self).z_far,
                ),
                ..*old(self)
            }),
    {
        if focal.bits < -PERSP_ENTRY_BOUND || focal.bits > PERSP_ENTRY_BOUND {
            return false;
        }
        let a = self.height.div(self.width);
        let af = match a.checked_mul(focal) {
            Some(v) => v,
            None => {
                return false;
            },
        };
        if af.bits < -PERSP_ENTRY_BOUND || af.bits > PERSP_ENTRY_BOUND {
            return false;
        }
        self.set_fov(fov, focal);
        true
    }

    /// Validates a new near depth and applies it only when the
    /// recomputed depth-remap entries stay representable; the
    /// configuration is untouched otherwise.
    pub fn set_z_near_checked(&mut self, z_near: Fx) -> (ok: bool)
        requires
            old(self).wf(),
        ensures
            final(self).wf(),
            ok <==> (0 < z_near.bits < old(self).z_far.bits && in_i64(
                fx_mul_i(-old(self).z_far.bits, z_near.bits as int),
            ) && -PERSP_ENTRY_BOUND <= persp_q1(
                z_near.bits as int,
                old(self).z_far.bits as int,
            ) <= PERSP_ENTRY_BOUND && -PERSP_ENTRY_BOUND <= persp_q2(
                z_near.bits as int,
                old(self).z_far.bits as int,
            ) <= PERSP_ENTRY_BOUND),
            !ok ==> *final(self) == *old(self),
            ok ==> *final(self) == (Renderer {
                z_near,
                perspective: perspective_mat(
                    old(self).width,
                    old(self).height,
                    old(self).focal,
                    z_near,
                    old(self).z_far,
                ),
                ..*old(self)
            }),
    {
        if z_near.bits <= 0 || z_near.bits >= self.z_far.bits {
            return false;
        }
        let d = self.z_far.sub(z_near);
        let q1 = match self.z_far.checked_div(d) {
            Some(v) => v,
            None => {
                return false;
            },
        };
        if q1.bits < -PERSP_ENTRY_BOUND || q1.bits > PERSP_ENTRY_BOUND {
            return false;
        }
        let t = match self.z_far.neg().checked_mul(z_near) {
            Some(v) => v,
            None => {
                return false;
            },
        };
        let q2 = match t.checked_div(d) {
            Some(v) => v,
            None => {
                return false;
            },
        };
        if q2.bits < -PERSP_ENTRY_BOUND || q2.bits > PERSP_ENTRY_BOUND {
            return false;
        }
        self.set_z_near(z_near);
        true
    }

    /// Validates a new far depth and applies it only when the recomputed
    /// depth-remap entries stay representable; the configuration is
    /// untouched otherwise.
    pub fn set_z_far_checked(&mut self, z_far: Fx) -> (ok: bool)
        requires
            old(self).wf(),
        ensures
            final(self).wf(),
            ok <==> (old(self).z_near.bits < z_far.bits && in_i64(
                fx_mul_i(-z_far.bits, old(self).z_near.bits as int),
            ) && -PERSP_ENTRY_BOUND <= persp_q1(
                old(self).z_near.bits as int,
                z_far.bits as int,
            ) <= PERSP_ENTRY_BOUND && -PERSP_ENTRY_BOUND <= persp_q2(
                old(self).z_near.bits as int,
                z_far.bits as int,
            ) <= PERSP_ENTRY_BOUND),
            !ok ==> *final(self) == *old(self),
            ok ==> *final(self) == (Renderer {
                z_far,
                perspective: perspective_mat(
                    old(self).width,
                    old(self).height,
                    old(self).focal,
                    old(self).z_near,
                    z_far,
                ),
                ..*old(self)
            }),
    {
        if z_far.bits <= self.z_near.bits {
            return false;
        }
        let d = z_far.sub(self.z_near);
        let q1 = match z_far.checked_div(d) {
            Some(v) => v,
            None => {
                return false;
            },
        };
        if q1.bits < -PERSP_ENTRY_BOUND || q1.bits > PERSP_ENTRY_BOUND {
            return false;
        }
        let t = match z_far.neg().checked_mul(self.z_near) {
            Some(v) => v,
            None => {
                return false;
            },
        };
        let q2 = match t.checked_div(d) {
            Some(v) => v,
            None => {
                return false;
            },
        };
        if q2.bits < -PERSP_ENTRY_BOUND || q2.bits > PERSP_ENTRY_BOUND {
            return false;
        }
        self.set_z_far(z_far);
        true
    }

    /// Projecting the model origin with zero rotation lands exactly on
    /// the viewport center, whatever the projection parameters: the
    /// rotations fix the origin, the camera translation gives it
    /// homogeneous w equal to the camera distance, the x and y
    /// numerators stay zero, and the viewport map returns its center
    /// offsets.
    pub proof fn lemma_project_origin_centered(self)
        requires
            self.wf(),
        ensures
            self.screen_of(origin_point(), identity_trig()) == Some(
                (
                    Fx { bits: half_extent(self.width.bits as int) as i64 },
                    Fx { bits: half_extent(self.height.bits as int) as i64 },
                ),
            ),
    {
        let p = origin_point();
        crate::transformation::lemma_rotation_zero_identity(p);
        lemma_fx_mul_zero(0);
        lemma_fx_mul_zero(FX_SCALE as int);
        lemma_fx_mul_one(0);
        lemma_fx_mul_one(FX_SCALE as int);
        lemma_fx_mul_one(3 * FX_SCALE);
        let r4 = mat_vec(camera_mat(), p);
        assert(r4 == (Vec4 {
            x: Fx { bits: 0 },
            y: Fx { bits: 0 },
            z: Fx { bits: (3 * FX_SCALE) as i64 },
            w: Fx { bits: FX_SCALE },
        }));
        let m = self.perspective;
        lemma_fx_mul_zero(m.r0.c0.bits as int);
        lemma_fx_mul_zero(m.r1.c1.bits as int);
        let r5 = mat_vec(m, r4);
        assert(r5.x.bits == 0);
        assert(r5.y.bits == 0);
        assert(r5.w.bits == 3 * FX_SCALE);
        crate::fx::lemma_fx_div_zero(3 * FX_SCALE);
        let hw = half_extent(self.width.bits as int);
        let hh = half_extent(self.height.bits as int);
        lemma_fx_mul_bound(
            self.width.bits as int,
            (FX_SCALE / 2) as int,
            65536 * FX_SCALE,
            (FX_SCALE / 2) as int,
        );
        lemma_fx_mul_bound(
            self.height.bits as int,
            (FX_SCALE / 2) as int,
            65536 * FX_SCALE,
            (FX_SCALE / 2) as int,
        );
        lemma_fx_mul_zero(hw);
        lemma_fx_mul_zero(hh);
    }
}

} // verus!
