//! Camera: eye/look/up state and the orthonormal-ish basis derived from
//! it.
//!
//! `update_basis` rebuilds `forward`, `right` and `up` from the stored
//! eye and look-at point, re-orthogonalizing `up` against the other two,
//! and is called after every mutation. `basis_change` maps a camera-space
//! direction (with -z forward) into world space.

use vstd::prelude::*;
use crate::fx::{
    fx_add, fx_add_val, fx_cos, fx_cos_val, fx_mul, fx_mul_val, fx_sin, fx_sin_val, fx_sub,
    fx_sub_val, FX_ONE,
};
use crate::vec3::Vec3;

verus! {

/// Zooming never brings the eye closer to the look-at point than this
/// (one tenth of a world unit).
pub const ZOOM_MIN_DIST: i64 = 6554;

#[derive(Clone, Copy, Debug)]
pub struct Camera {
    pub eye: Vec3,
    pub center: Vec3,
    pub up: Vec3,
    pub forward: Vec3,
    pub right: Vec3,
}

/// What `update_basis` leaves behind: forward toward the look-at point,
/// right orthogonal to forward and the input up, and up rebuilt from the
/// two (so a non-orthogonal input up is tolerated).
pub open spec fn spec_update_basis(c: Camera) -> Camera {
    let forward = c.center.spec_vsub(c.eye).spec_normalized();
    let right = forward.spec_cross(c.up).spec_normalized();
    let up = right.spec_cross(forward);
    Camera { eye: c.eye, center: c.center, up, forward, right }
}

/// What `basis_change` returns: the camera-space direction expressed in
/// world coordinates, with -z mapping to forward.
pub open spec fn spec_basis_change(c: Camera, p: Vec3) -> Vec3 {
    Vec3 {
        x: fx_sub_val(
            fx_add_val(
                fx_mul_val(p.x as int, c.right.x as int),
                fx_mul_val(p.y as int, c.up.x as int),
            ),
            fx_mul_val(p.z as int, c.forward.x as int),
        ) as i64,
        y: fx_sub_val(
            fx_add_val(
                fx_mul_val(p.x as int, c.right.y as int),
                fx_mul_val(p.y as int, c.up.y as int),
            ),
            fx_mul_val(p.z as int, c.forward.y as int),
        ) as i64,
        z: fx_sub_val(
            fx_add_val(
                fx_mul_val(p.x as int, c.right.z as int),
                fx_mul_val(p.y as int, c.up.z as int),
            ),
            fx_mul_val(p.z as int, c.forward.z as int),
        ) as i64,
    }
}

/// What `zoom` leaves behind: the eye moved along forward, unless the
/// distance left to the look-at point after moving would fall to
/// `ZOOM_MIN_DIST` or below (which also rules out crossing it), and the
/// basis rebuilt.
pub open spec fn spec_zoom(c: Camera, delta: int) -> Camera {
    let remaining = fx_sub_val(c.center.spec_vsub(c.eye).spec_length(), delta);
    let eye = if remaining <= ZOOM_MIN_DIST {
        c.eye
    } else {
        c.eye.spec_vadd(c.forward.spec_scale(delta))
    };
    spec_update_basis(Camera { eye, center: c.center, up: c.up, forward: c.forward, right: c.right })
}

/// What `move_vertical` leaves behind: eye and look-at point translated
/// together along world up, and the basis rebuilt.
pub open spec fn spec_move_vertical(c: Camera, delta: int) -> Camera {
    let eye = Vec3 { x: c.eye.x, y: fx_add_val(c.eye.y as int, delta) as i64, z: c.eye.z };
    let center = Vec3 {
        x: c.center.x,
        y: fx_add_val(c.center.y as int, delta) as i64,
        z: c.center.z,
    };
    spec_update_basis(Camera { eye, center, up: c.up, forward: c.forward, right: c.right })
}

/// What `orbit` leaves behind: the eye's offset from the look-at point
/// turned by the yaw angle about world up, then by the pitch angle about
/// the camera's right axis (Rodrigues' rotation), and the basis rebuilt.
/// The radius is preserved up to fixed-point rounding.
pub open spec fn spec_orbit(c: Camera, delta_yaw: int, delta_pitch: int) -> Camera {
    let v = c.eye.spec_vsub(c.center);
    let cy = fx_cos_val(delta_yaw);
    let sy = fx_sin_val(delta_yaw);
    let v1 = Vec3 {
        x: fx_add_val(fx_mul_val(v.x as int, cy), fx_mul_val(v.z as int, sy)) as i64,
        y: v.y,
        z: fx_sub_val(fx_mul_val(v.z as int, cy), fx_mul_val(v.x as int, sy)) as i64,
    };
    let k = c.right;
    let cp = fx_cos_val(delta_pitch);
    let sp = fx_sin_val(delta_pitch);
    let v2 = v1.spec_scale(cp).spec_vadd(k.spec_cross(v1).spec_scale(sp)).spec_vadd(
        k.spec_scale(fx_mul_val(k.spec_dot(v1), fx_sub_val(FX_ONE as int, cp))),
    );
    let eye = c.center.spec_vadd(v2);
    spec_update_basis(Camera { eye, center: c.center, up: c.up, forward: c.forward, right: c.right })
}

impl Camera {
    pub fn new(eye: Vec3, center: Vec3, up: Vec3) -> (c: Camera)
        ensures
            c == spec_update_basis(
                Camera {
                    eye,
                    center,
                    up,
                    forward: Vec3 { x: 0i64, y: 0i64, z: 0i64 },
                    right: Vec3 { x: 0i64, y: 0i64, z: 0i64 },
                },
            ),
    {
        let mut camera = Camera {
            eye,
            center,
            up,
            forward: Vec3 { x: 0, y: 0, z: 0 },
            right: Vec3 { x: 0, y: 0, z: 0 },
        };
        camera.update_basis();
        camera
    }

    /// Rebuild the orthonormal basis after eye, center or up changed.
    pub fn update_basis(&mut self)
        ensures
            *final(self) == spec_update_basis(*old(self)),
    {
        self.forward = self.center.sub(&self.eye).normalized();
        self.right = self.forward.cross(&self.up).normalized();
        self.up = self.right.cross(&self.forward);
    }

    /// Map a camera-space direction into world space.
    pub fn basis_change(&self, p: &Vec3) -> (r: Vec3)
        ensures
            r == spec_basis_change(*self, *p),
    {
        Vec3 {
            x: fx_sub(
                fx_add(fx_mul(p.x, self.right.x), fx_mul(p.y, self.up.x)),
                fx_mul(p.z, self.forward.x),
            ),
            y: fx_sub(
                fx_add(fx_mul(p.x, self.right.y), fx_mul(p.y, self.up.y)),
                fx_mul(p.z, self.forward.y),
            ),
            z: fx_sub(
                fx_add(fx_mul(p.x, self.right.z), fx_mul(p.y, self.up.z)),
                fx_mul(p.z, self.forward.z),
            ),
        }
    }

    /// Move the eye along the viewing direction, stopping short of the
    /// look-at point.
    pub fn zoom(&mut self, delta: i64)
        ensures
            *final(self) == spec_zoom(*old(self), delta as int),
    {
        let remaining = fx_sub(self.center.sub(&self.eye).length(), delta);
        if remaining > ZOOM_MIN_DIST {
            let moved = self.eye.add(&self.forward.scale(delta));
            self.eye = moved;
        }
        self.update_basis();
    }

    /// Rotate the eye around the look-at point: yaw about world up,
    /// pitch about the camera's right axis.
    pub fn orbit(&mut self, delta_yaw: i64, delta_pitch: i64)
        ensures
            *final(self) == spec_orbit(*old(self), delta_yaw as int, delta_pitch as int),
    {
        let v = self.eye.sub(&self.center);
        let cy = fx_cos(delta_yaw);
        let sy = fx_sin(delta_yaw);
        let v1 = Vec3 {
            x: fx_add(fx_mul(v.x, cy), fx_mul(v.z, sy)),
            y: v.y,
            z: fx_sub(fx_mul(v.z, cy), fx_mul(v.x, sy)),
        };
        let k = self.right;
        let cp = fx_cos(delta_pitch);
        let sp = fx_sin(delta_pitch);
        let v2 = v1.scale(cp).add(&k.cross(&v1).scale(sp)).add(
            &k.scale(fx_mul(k.dot(&v1), fx_sub(FX_ONE, cp))),
        );
        self.eye = self.center.add(&v2);
        self.update_basis();
    }

    /// Translate eye and look-at point together along world up.
    pub fn move_vertical(&mut self, delta: i64)
        ensures
            *final(self) == spec_move_vertical(*old(self), delta as int),
    {
        self.eye.y = fx_add(self.eye.y, delta);
        self.center.y = fx_add(self.center.y, delta);
        self.update_basis();
    }
}

} // verus!
