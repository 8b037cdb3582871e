//! Orthographic camera: mutable viewport state and the view-projection
//! matrix built from it.
//!
//! The projection is a standard orthographic matrix over `left = 0,
//! right = width, bottom = 0, top = height, near = -1, far = 1`,
//! left-multiplied by a fixed correction that is the identity on X and Y and
//! remaps depth from the symmetric `[-1, 1]` convention to the `[0, 1]`
//! convention (`z' = 0.5 * z + 0.5`). Entries are exact rationals; a host
//! converts them to the GPU scalar format when uploading.
//!
//! Offset policy: the camera's `x`/`y` offset does not pan the orthographic
//! bounds. It is carried separately (as `camera_position` in the uniform
//! record) and applied by the vertex shader; the matrix depends on the
//! viewport extent alone.

use vstd::prelude::*;
use crate::rational::{Rat, Q, q_add, q_mul, q_eq};

verus! {

/// A configuration error from giving the camera a degenerate viewport.
#[derive(Clone, Copy, Debug, PartialEq, Eq, Structural)]
pub enum CameraError {
    ZeroWidth,
    ZeroHeight,
}

/// A 4x4 matrix of exact rationals. Field `mRC` is the entry at row `R`,
/// column `C`; the serialization order used for GPU upload is column-major.
#[derive(Clone, Copy, Debug, PartialEq, Eq, Structural)]
pub struct Mat4 {
    pub m00: Rat,
    pub m01: Rat,
    pub m02: Rat,
    pub m03: Rat,
    pub m10: Rat,
    pub m11: Rat,
    pub m12: Rat,
    pub m13: Rat,
    pub m20: Rat,
    pub m21: Rat,
    pub m22: Rat,
    pub m23: Rat,
    pub m30: Rat,
    pub m31: Rat,
    pub m32: Rat,
    pub m33: Rat,
}

impl Mat4 {
    pub open spec fn wf(self) -> bool {
        &&& self.m00.wf() && self.m01.wf() && self.m02.wf() && self.m03.wf()
        &&& self.m10.wf() && self.m11.wf() && self.m12.wf() && self.m13.wf()
        &&& self.m20.wf() && self.m21.wf() && self.m22.wf() && self.m23.wf()
        &&& self.m30.wf() && self.m31.wf() && self.m32.wf() && self.m33.wf()
    }

    /// The identity matrix.
    pub fn identity() -> (m: Mat4)
        ensures
            m == identity_spec(),
            m.wf(),
    {
        let one = Rat { num: 1, den: 1 };
        let zero = Rat { num: 0, den: 1 };
        Mat4 {
            m00: one,
            m01: zero,
            m02: zero,
            m03: zero,
            m10: zero,
            m11: one,
            m12: zero,
            m13: zero,
            m20: zero,
            m21: zero,
            m22: one,
            m23: zero,
            m30: zero,
            m31: zero,
            m32: zero,
            m33: one,
        }
    }
}

/// The identity matrix, entry by entry.
pub open spec fn identity_spec() -> Mat4 {
    let one = Rat { num: 1, den: 1 };
    let zero = Rat { num: 0, den: 1 };
    Mat4 {
        m00: one,
        m01: zero,
        m02: zero,
        m03: zero,
        m10: zero,
        m11: one,
        m12: zero,
        m13: zero,
        m20: zero,
        m21: zero,
        m22: one,
        m23: zero,
        m30: zero,
        m31: zero,
        m32: zero,
        m33: one,
    }
}

/// The corrected orthographic view-projection matrix for a viewport of
/// `width x height` pixels, entry by entry: X is scaled by `2 / width` and
/// translated by `-1`, Y by `2 / height` and `-1`, and depth by `-1/2` with
/// translation `1/2`, so that `z = 0` lands at depth `1/2` inside `[0, 1]`.
pub open spec fn view_projection_spec(width: u32, height: u32) -> Mat4 {
    let zero = Rat { num: 0, den: 1 };
    Mat4 {
        m00: Rat { num: 2, den: width as i64 },
        m01: zero,
        m02: zero,
        m03: Rat { num: -1i64, den: 1 },
        m10: zero,
        m11: Rat { num: 2, den: height as i64 },
        m12: zero,
        m13: Rat { num: -1i64, den: 1 },
        m20: zero,
        m21: zero,
        m22: Rat { num: -1i64, den: 2 },
        m23: Rat { num: 1, den: 2 },
        m30: zero,
        m31: zero,
        m32: zero,
        m33: Rat { num: 1, den: 1 },
    }
}

/// Mutable camera state: viewport extent in pixels and a world-space offset.
/// A degenerate (zero) extent is rejected at construction and on resize, so
/// the projection never divides by zero.
#[derive(Clone, Copy, Debug, PartialEq, Eq, Structural)]
pub struct Camera {
    pub width: u32,
    pub height: u32,
    pub x: Rat,
    pub y: Rat,
}

impl Camera {
    pub open spec fn wf(self) -> bool {
        &&& self.width > 0
        &&& self.height > 0
        &&& self.x.wf()
        &&& self.y.wf()
    }

    /// Builds a camera, rejecting a degenerate viewport.
    pub fn new(width: u32, height: u32, x: Rat, y: Rat) -> (r: Result<Camera, CameraError>)
        requires
            x.wf(),
            y.wf(),
        ensures
            width == 0 ==> r == Err::<Camera, CameraError>(CameraError::ZeroWidth),
            width > 0 && height == 0 ==> r == Err::<Camera, CameraError>(CameraError::ZeroHeight),
            width > 0 && height > 0 ==> r == Ok::<Camera, CameraError>(
                Camera { width, height, x, y },
            ),
            r is Ok <==> width > 0 && height > 0,
            r is Ok ==> r->Ok_0.wf(),
    {
        if width == 0 {
            Err(CameraError::ZeroWidth)
        } else if height == 0 {
            Err(CameraError::ZeroHeight)
        } else {
            Ok(Camera { width, height, x, y })
        }
    }

    /// The camera's world-space offset, as handed to the shader.
    pub fn position(&self) -> (r: (Rat, Rat))
        ensures
            r == (self.x, self.y),
    {
        (self.x, self.y)
    }

    /// Builds the view-projection matrix from the current viewport. The
    /// result is a function of `width` and `height` alone: rebuilding
    /// without changing them yields the identical matrix.
    pub fn build_matrix(&self) -> (m: Mat4)
        requires
            self.wf(),
        ensures
            m == view_projection_spec(self.width, self.height),
            m.wf(),
    {
        let zero = Rat { num: 0, den: 1 };
        Mat4 {
            m00: Rat { num: 2, den: self.width as i64 },
            m01: zero,
            m02: zero,
            m03: Rat { num: -1, den: 1 },
            m10: zero,
            m11: Rat { num: 2, den: self.height as i64 },
            m12: zero,
            m13: Rat { num: -1, den: 1 },
            m20: zero,
            m21: zero,
            m22: Rat { num: -1, den: 2 },
            m23: Rat { num: 1, den: 2 },
            m30: zero,
            m31: zero,
            m32: zero,
            m33: Rat { num: 1, den: 1 },
        }
    }

    /// Adds `(dx, dy)` to the camera's offset. The viewport is untouched, so
    /// the view-projection matrix is unchanged by movement.
    pub fn modify_position(&mut self, dx: Rat, dy: Rat)
        requires
            old(self).wf(),
            dx.wf(),
            dy.wf(),
            i64::MIN <= old(self).x.num * dx.den <= i64::MAX,
            i64::MIN <= dx.num * old(self).x.den <= i64::MAX,
            i64::MIN <= old(self).x.num * dx.den + dx.num * old(self).x.den <= i64::MAX,
            old(self).x.den * dx.den <= i64::MAX,
            i64::MIN <= old(self).y.num * dy.den <= i64::MAX,
            i64::MIN <= dy.num * old(self).y.den <= i64::MAX,
            i64::MIN <= old(self).y.num * dy.den + dy.num * old(self).y.den <= i64::MAX,
            old(self).y.den * dy.den <= i64::MAX,
        ensures
            final(self).wf(),
            final(self).x.val() == q_add(old(self).x.val(), dx.val()),
            final(self).y.val() == q_add(old(self).y.val(), dy.val()),
            final(self).width == old(self).width,
            final(self).height == old(self).height,
    {
        self.x = self.x.add(dx);
        self.y = self.y.add(dy);
    }

    /// Sets the viewport extent, rejecting a degenerate one; on rejection
    /// the camera is unchanged. The offset is untouched either way.
    pub fn resize(&mut self, width: u32, height: u32) -> (r: Result<(), CameraError>)
        requires
            old(self).wf(),
        ensures
            final(self).wf(),
            width == 0 ==> r == Err::<(), CameraError>(CameraError::ZeroWidth) && *final(self)
                == *old(self),
            width > 0 && height == 0 ==> r == Err::<(), CameraError>(CameraError::ZeroHeight)
                && *final(self) == *old(self),
            width > 0 && height > 0 ==> r == Ok::<(), CameraError>(()) && *final(self) == (Camera {
                width,
                height,
                x: old(self).x,
                y: old(self).y,
            }),
    {
        if width == 0 {
            Err(CameraError::ZeroWidth)
        } else if height == 0 {
            Err(CameraError::ZeroHeight)
        } else {
            self.width = width;
            self.height = height;
            Ok(())
        }
    }
}

/// Entry at row `r`, column `c` of a matrix.
pub open spec fn mat_entry(m: Mat4, r: int, c: int) -> Q {
    if r == 0 {
        if c == 0 {
            m.m00.val()
        } else if c == 1 {
            m.m01.val()
        } else if c == 2 {
            m.m02.val()
        } else {
            m.m03.val()
        }
    } else if r == 1 {
        if c == 0 {
            m.m10.val()
        } else if c == 1 {
            m.m11.val()
        } else if c == 2 {
            m.m12.val()
        } else {
            m.m13.val()
        }
    } else if r == 2 {
        if c == 0 {
            m.m20.val()
        } else if c == 1 {
            m.m21.val()
        } else if c == 2 {
            m.m22.val()
        } else {
            m.m23.val()
        }
    } else {
        if c == 0 {
            m.m30.val()
        } else if c == 1 {
            m.m31.val()
        } else if c == 2 {
            m.m32.val()
        } else {
            m.m33.val()
        }
    }
}

/// Entry at row `r`, column `c` of the fixed depth-correction matrix: the
/// identity on X, Y and W, and `z' = 0.5 * z + 0.5 * w` on the depth row.
pub open spec fn correction_entry(r: int, c: int) -> Q {
    if r == c && (r == 0 || r == 1 || r == 3) {
        (1, 1)
    } else if r == 2 && (c == 2 || c == 3) {
        (1, 2)
    } else {
        (0, 1)
    }
}

/// Entry at row `r`, column `c` of the plain orthographic projection over
/// `left = 0, right = width, bottom = 0, top = height, near = -1, far = 1`,
/// by the standard formulas: scales `2/(right-left)`, `2/(top-bottom)`,
/// `-2/(far-near)`, and the negated midpoint translations.
pub open spec fn ortho_entry(width: u32, height: u32, r: int, c: int) -> Q {
    let w = width as int;
    let h = height as int;
    if r == 0 && c == 0 {
        (2, w)
    } else if r == 0 && c == 3 {
        (-w, w)
    } else if r == 1 && c == 1 {
        (2, h)
    } else if r == 1 && c == 3 {
        (-h, h)
    } else if r == 2 && c == 2 {
        (-2, 2)
    } else if r == 2 && c == 3 {
        (0, 2)
    } else if r == 3 && c == 3 {
        (1, 1)
    } else {
        (0, 1)
    }
}

/// Entry at row `r`, column `c` of the correction matrix left-multiplied
/// onto the orthographic projection: row `r` of the correction dotted with
/// column `c` of the projection.
pub open spec fn corrected_ortho_entry(width: u32, height: u32, r: int, c: int) -> Q {
    q_add(
        q_add(
            q_mul(correction_entry(r, 0), ortho_entry(width, height, 0, c)),
            q_mul(correction_entry(r, 1), ortho_entry(width, height, 1, c)),
        ),
        q_add(
            q_mul(correction_entry(r, 2), ortho_entry(width, height, 2, c)),
            q_mul(correction_entry(r, 3), ortho_entry(width, height, 3, c)),
        ),
    )
}

/// The view-projection matrix is, entry by entry in rational value, the
/// fixed depth correction left-multiplied onto the standard orthographic
/// projection of the viewport.
pub proof fn lemma_view_projection_is_corrected_ortho(width: u32, height: u32, r: int, c: int)
    requires
        width > 0,
        height > 0,
        0 <= r < 4,
        0 <= c < 4,
    ensures
        q_eq(
            mat_entry(view_projection_spec(width, height), r, c),
            corrected_ortho_entry(width, height, r, c),
        ),
{
    assert(q_eq(
        mat_entry(view_projection_spec(width, height), r, c),
        corrected_ortho_entry(width, height, r, c),
    )) by (nonlinear_arith)
        requires
            width > 0,
            height > 0,
            0 <= r < 4,
            0 <= c < 4,
    ;
}

/// The X clip coordinate the matrix gives a world point `(x, y, z, 1)`.
pub open spec fn clip_x(m: Mat4, x: Q, y: Q, z: Q) -> Q {
    q_add(q_add(q_mul(m.m00.val(), x), q_mul(m.m01.val(), y)), q_add(q_mul(m.m02.val(), z), m.m03.val()))
}

/// The Y clip coordinate the matrix gives a world point `(x, y, z, 1)`.
pub open spec fn clip_y(m: Mat4, x: Q, y: Q, z: Q) -> Q {
    q_add(q_add(q_mul(m.m10.val(), x), q_mul(m.m11.val(), y)), q_add(q_mul(m.m12.val(), z), m.m13.val()))
}

/// The depth coordinate the matrix gives a world point `(x, y, z, 1)`.
pub open spec fn clip_z(m: Mat4, x: Q, y: Q, z: Q) -> Q {
    q_add(q_add(q_mul(m.m20.val(), x), q_mul(m.m21.val(), y)), q_add(q_mul(m.m22.val(), z), m.m23.val()))
}

/// The W clip coordinate the matrix gives a world point `(x, y, z, 1)`.
pub open spec fn clip_w(m: Mat4, x: Q, y: Q, z: Q) -> Q {
    q_add(q_add(q_mul(m.m30.val(), x), q_mul(m.m31.val(), y)), q_add(q_mul(m.m32.val(), z), m.m33.val()))
}

/// The view-projection matrix maps the viewport's corners to the opposite
/// corners of clip space: world `(0, 0, 0)` to `(-1, -1)` and world
/// `(width, height, 0)` to `(1, 1)`, both with W equal to 1 and depth `1/2`,
/// inside the `[0, 1]` depth convention.
pub proof fn lemma_viewport_maps_corners(width: u32, height: u32)
    requires
        width > 0,
        height > 0,
    ensures
        q_eq(clip_x(view_projection_spec(width, height), (0, 1), (0, 1), (0, 1)), (-1, 1)),
        q_eq(clip_y(view_projection_spec(width, height), (0, 1), (0, 1), (0, 1)), (-1, 1)),
        q_eq(
            clip_x(
                view_projection_spec(width, height),
                (width as int, 1),
                (height as int, 1),
                (0, 1),
            ),
            (1, 1),
        ),
        q_eq(
            clip_y(
                view_projection_spec(width, height),
                (width as int, 1),
                (height as int, 1),
                (0, 1),
            ),
            (1, 1),
        ),
        q_eq(clip_z(view_projection_spec(width, height), (0, 1), (0, 1), (0, 1)), (1, 2)),
        q_eq(
            clip_z(
                view_projection_spec(width, height),
                (width as int, 1),
                (height as int, 1),
                (0, 1),
            ),
            (1, 2),
        ),
        q_eq(clip_w(view_projection_spec(width, height), (0, 1), (0, 1), (0, 1)), (1, 1)),
        q_eq(
            clip_w(
                view_projection_spec(width, height),
                (width as int, 1),
                (height as int, 1),
                (0, 1),
            ),
            (1, 1),
        ),
{
    let m = view_projection_spec(width, height);
    let w = width as int;
    let h = height as int;
    assert(q_eq(clip_x(m, (w, 1), (h, 1), (0, 1)), (1, 1))) by (nonlinear_arith)
        requires
            m == view_projection_spec(width, height),
            w == width as int,
            h == height as int,
            w > 0,
            h > 0,
    ;
    assert(q_eq(clip_y(m, (w, 1), (h, 1), (0, 1)), (1, 1))) by (nonlinear_arith)
        requires
            m == view_projection_spec(width, height),
            w == width as int,
            h == height as int,
            w > 0,
            h > 0,
    ;
    assert(q_eq(clip_x(m, (0, 1), (0, 1), (0, 1)), (-1, 1))) by (nonlinear_arith)
        requires
            m == view_projection_spec(width, height),
            w == width as int,
            h == height as int,
            w > 0,
            h > 0,
    ;
    assert(q_eq(clip_y(m, (0, 1), (0, 1), (0, 1)), (-1, 1))) by (nonlinear_arith)
        requires
            m == view_projection_spec(width, height),
            w == width as int,
            h == height as int,
            w > 0,
            h > 0,
    ;
    assert(q_eq(clip_z(m, (0, 1), (0, 1), (0, 1)), (1, 2))) by (nonlinear_arith)
        requires
            m == view_projection_spec(width, height),
            w == width as int,
            h == height as int,
            w > 0,
            h > 0,
    ;
    assert(q_eq(clip_z(m, (w, 1), (h, 1), (0, 1)), (1, 2))) by (nonlinear_arith)
        requires
            m == view_projection_spec(width, height),
            w == width as int,
            h == height as int,
            w > 0,
            h > 0,
    ;
    assert(q_eq(clip_w(m, (0, 1), (0, 1), (0, 1)), (1, 1))) by (nonlinear_arith)
        requires
            m == view_projection_spec(width, height),
            w == width as int,
            h == height as int,
            w > 0,
            h > 0,
    ;
    assert(q_eq(clip_w(m, (w, 1), (h, 1), (0, 1)), (1, 1))) by (nonlinear_arith)
        requires
            m == view_projection_spec(width, height),
            w == width as int,
            h == height as int,
            w > 0,
            h > 0,
    ;
}

/// Changing the viewport width alone changes only the matrix's X scale term
/// (row 0, column 0); every other entry is identical.
pub proof fn lemma_width_changes_first_column_scale_only(w1: u32, w2: u32, height: u32)
    ensures
        ({
            let m1 = view_projection_spec(w1, height);
            let m2 = view_projection_spec(w2, height);
            m1 == (Mat4 { m00: m1.m00, ..m2 })
        }),
{
}

/// Rebuilding the matrix from an unchanged viewport yields the identical
/// matrix: the view projection is a function of width and height alone, so
/// resizing twice to the same extent gives equal matrices both times.
pub proof fn lemma_matrix_determined_by_viewport(c1: Camera, c2: Camera)
    requires
        c1.width == c2.width,
        c1.height == c2.height,
    ensures
        view_projection_spec(c1.width, c1.height) == view_projection_spec(c2.width, c2.height),
{
}

} // verus!
