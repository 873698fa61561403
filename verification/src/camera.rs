//! The free-look camera: position, orientation and the movement the run
//! loop applies to it.
//!
//! Positions are fixed-point thousandths of a unit; angles are thousandths
//! of a degree.  The orientation axes are derived from yaw and pitch with
//! the piecewise-linear trigonometry of [`crate::fixed`], which is exact at
//! quarter turns; what the renderer needs beyond that (projection and view
//! matrices) is a collaborator's concern and reads the public fields.

use vstd::prelude::*;

use crate::fixed::{FX_MAX, FX_MIN, FX_ONE, Vec3, cos_milli, div_trunc, divt, fx_add, fx_clamp,
    fx_clamped, sin_milli, spec_cos_milli, spec_sin_milli};

verus! {

/// The mouse-look sensitivity divisor: a cursor offset moves the view by a
/// tenth of its magnitude.
pub const SENSITIVITY_DIV: i64 = 10;

/// The lowest pitch the camera may reach, in thousandths of a degree.
pub const PITCH_MIN: i64 = -89_000;

/// The highest pitch the camera may reach, in thousandths of a degree.
pub const PITCH_MAX: i64 = 89_000;

/// `p` clamped into the allowed pitch band.
pub open spec fn clamped_pitch(p: int) -> int {
    if p > PITCH_MAX as int {
        PITCH_MAX as int
    } else if p < PITCH_MIN as int {
        PITCH_MIN as int
    } else {
        p
    }
}

/// One position component after moving by `amount` along an axis component
/// `axis` (a unit-vector coordinate in thousandths): the scaled step is
/// added and the result clamped into the representable range.
pub open spec fn moved(pos: int, axis: int, amount: int) -> int {
    fx_clamped(pos + divt(axis * fx_clamped(amount), FX_ONE as int))
}

/// A vector with every component negated.
pub open spec fn neg(v: Vec3) -> Vec3 {
    Vec3 { x: -v.x as i64, y: -v.y as i64, z: -v.z as i64 }
}

pub struct Camera {
    /// Where the camera stands.
    pub position: Vec3,
    /// A spare orientation slot kept for renderers that want it; the camera
    /// itself steers by yaw and pitch.
    pub rotation: Vec3,
    /// Vertical field of view, in thousandths of a degree.
    pub fov: i64,
    /// Near clipping distance.
    pub near: i64,
    /// Far clipping distance.
    pub far: i64,
    /// Heading angle, in thousandths of a degree.
    pub yaw: i64,
    /// Elevation angle, kept inside `[PITCH_MIN, PITCH_MAX]`.
    pub pitch: i64,

    /// The camera's up axis, derived by `update`.
    pub up: Vec3,
    /// The direction the camera faces, derived by `update`.
    pub front: Vec3,
    /// The camera's right-hand axis, derived by `update`.
    pub right: Vec3,
    /// The fixed world up direction.
    pub world_up: Vec3,

    /// Whether the next cursor event only records the position.
    pub first_mouse: bool,
    /// The last cursor position seen, clamped into range.
    pub last_x: i64,
    /// The last cursor position seen, clamped into range.
    pub last_y: i64,
}

impl Camera {
    /// The camera's internal invariant: angles and position stay
    /// representable, the pitch stays inside its band, and the orientation
    /// axes stay bounded so that movement arithmetic cannot overflow.
    pub open spec fn wf(&self) -> bool {
        &&& self.position.in_range()
        &&& FX_MIN <= self.yaw <= FX_MAX
        &&& PITCH_MIN <= self.pitch <= PITCH_MAX
        &&& self.front.bounded(FX_ONE as int)
        &&& self.right.bounded(FX_ONE as int)
        &&& self.up.bounded(2 * FX_ONE as int)
        &&& self.world_up == (Vec3 { x: 0, y: 1000, z: 0 })
        &&& FX_MIN <= self.last_x <= FX_MAX
        &&& FX_MIN <= self.last_y <= FX_MAX
    }

    /// The camera `new` returns: three units behind the origin, looking
    /// down the negative depth axis, with a 45-degree field of view.
    pub open spec fn new_spec() -> Camera {
        Camera {
            position: Vec3 { x: 0, y: 0, z: 3000 },
            rotation: Vec3 { x: 0, y: 0, z: 0 },
            fov: 45_000,
            near: 100,
            far: 100_000,
            yaw: -90_000i64,
            pitch: 0,
            up: Vec3 { x: 0, y: 1000, z: 0 },
            front: Vec3 { x: 0, y: 0, z: -1000i64 },
            right: Vec3 { x: 1000, y: 0, z: 0 },
            world_up: Vec3 { x: 0, y: 1000, z: 0 },
            first_mouse: true,
            last_x: 0,
            last_y: 0,
        }
    }

    /// A camera three units behind the origin, looking down the negative
    /// depth axis, with a 45-degree field of view.
    pub fn new() -> (r: Camera)
        ensures
            r == Camera::new_spec(),
            r.wf(),
    {
        Camera {
            position: Vec3 { x: 0, y: 0, z: 3000 },
            rotation: Vec3 { x: 0, y: 0, z: 0 },
            fov: 45_000,
            near: 100,
            far: 100_000,
            yaw: -90_000i64,
            pitch: 0,

            up: Vec3 { x: 0, y: 1000, z: 0 },
            front: Vec3 { x: 0, y: 0, z: -1000 },
            right: Vec3 { x: 1000, y: 0, z: 0 },
            world_up: Vec3 { x: 0, y: 1000, z: 0 },

            first_mouse: true,
            last_x: 0,
            last_y: 0,
        }
    }

    /// The camera after one cursor event at the clamped position `(x, y)`:
    /// the first event only records the position; a later one turns the view
    /// by a tenth of the offset from the previous position, with the pitch
    /// clamped into its band.
    pub open spec fn mouse_moved(self, xpos: int, ypos: int) -> Camera {
        let x = fx_clamped(xpos) as i64;
        let y = fx_clamped(ypos) as i64;
        if self.first_mouse {
            Camera { last_x: x, last_y: y, first_mouse: false, ..self }
        } else {
            Camera {
                last_x: x,
                last_y: y,
                yaw: fx_clamped(
                    self.yaw + divt(x - self.last_x, SENSITIVITY_DIV as int),
                ) as i64,
                pitch: clamped_pitch(
                    self.pitch + divt(self.last_y - y, SENSITIVITY_DIV as int),
                ) as i64,
                ..self
            }
        }
    }

    /// Steers the view by the cursor offset since the last call: a tenth of
    /// the offset is added to yaw and pitch, and the pitch is clamped into
    /// its band.  The first call only records the cursor position.
    pub fn on_mouse_move(&mut self, xpos: i64, ypos: i64)
        requires
            old(self).wf(),
        ensures
            final(self).wf(),
            *final(self) == old(self).mouse_moved(xpos as int, ypos as int),
    {
        let x = fx_clamp(xpos);
        let y = fx_clamp(ypos);
        if self.first_mouse {
            self.last_x = x;
            self.last_y = y;
            self.first_mouse = false;
        } else {
            let xoffset = div_trunc(x - self.last_x, SENSITIVITY_DIV);
            let yoffset = div_trunc(self.last_y - y, SENSITIVITY_DIV);
            self.last_x = x;
            self.last_y = y;

            self.yaw = fx_add(self.yaw, xoffset);
            let pitch = self.pitch + yoffset;
            self.pitch = if pitch > PITCH_MAX {
                PITCH_MAX
            } else if pitch < PITCH_MIN {
                PITCH_MIN
            } else {
                pitch
            };
        }
    }

    /// Recomputes the orientation axes from yaw and pitch: the front vector
    /// from both angles, the right vector level with the ground, and the up
    /// vector as their cross product.
    pub fn update(&mut self)
        requires
            old(self).wf(),
        ensures
            final(self).wf(),
            final(self).front.x as int == divt(
                spec_cos_milli(old(self).yaw as int) * spec_cos_milli(old(self).pitch as int),
                FX_ONE as int,
            ),
            final(self).front.y as int == spec_sin_milli(old(self).pitch as int),
            final(self).front.z as int == divt(
                spec_sin_milli(old(self).yaw as int) * spec_cos_milli(old(self).pitch as int),
                FX_ONE as int,
            ),
            final(self).right.x as int == -spec_sin_milli(old(self).yaw as int),
            final(self).right.y == 0,
            final(self).right.z as int == spec_cos_milli(old(self).yaw as int),
            final(self).up == cross_scaled(
                final(self).right,
                final(self).front,
            ),
            final(self).position == old(self).position,
            final(self).rotation == old(self).rotation,
            final(self).fov == old(self).fov,
            final(self).near == old(self).near,
            final(self).far == old(self).far,
            final(self).yaw == old(self).yaw,
            final(self).pitch == old(self).pitch,
            final(self).world_up == old(self).world_up,
            final(self).first_mouse == old(self).first_mouse,
            final(self).last_x == old(self).last_x,
            final(self).last_y == old(self).last_y,
    {
        let cy = cos_milli(self.yaw);
        let sy = sin_milli(self.yaw);
        let cp = cos_milli(self.pitch);
        let sp = sin_milli(self.pitch);
        proof {
            lemma_unit_product_bounded(cy as int, cp as int);
            lemma_unit_product_bounded(sy as int, cp as int);
        }

        self.front = Vec3 {
            x: div_trunc(cy * cp, FX_ONE),
            y: sp,
            z: div_trunc(sy * cp, FX_ONE),
        };
        self.right = Vec3 { x: -sy, y: 0, z: cy };
        proof {
            lemma_unit_product_bounded(self.right.x as int, self.front.x as int);
            lemma_unit_product_bounded(self.right.x as int, self.front.y as int);
            lemma_unit_product_bounded(self.right.y as int, self.front.x as int);
            lemma_unit_product_bounded(self.right.y as int, self.front.z as int);
            lemma_unit_product_bounded(self.right.z as int, self.front.y as int);
            lemma_unit_product_bounded(self.right.z as int, self.front.x as int);
            lemma_unit_product_bounded(self.right.x as int, self.front.z as int);
            lemma_unit_product_bounded(self.right.y as int, self.front.y as int);
            lemma_unit_product_bounded(self.right.z as int, self.front.z as int);
        }
        self.up = Vec3 {
            x: div_trunc(self.right.y * self.front.z - self.right.z * self.front.y, FX_ONE),
            y: div_trunc(self.right.z * self.front.x - self.right.x * self.front.z, FX_ONE),
            z: div_trunc(self.right.x * self.front.y - self.right.y * self.front.x, FX_ONE),
        };
    }

    /// The camera displaced by `amount` along `axis`, component by
    /// component, each clamped into the representable range.
    pub open spec fn moved_along(self, axis: Vec3, amount: int) -> Camera {
        Camera {
            position: Vec3 {
                x: moved(self.position.x as int, axis.x as int, amount) as i64,
                y: moved(self.position.y as int, axis.y as int, amount) as i64,
                z: moved(self.position.z as int, axis.z as int, amount) as i64,
            },
            ..self
        }
    }

    /// Moves along the front axis by `amount` thousandths of a unit.
    pub fn move_forward(&mut self, amount: i64)
        requires
            old(self).wf(),
        ensures
            final(self).wf(),
            *final(self) == old(self).moved_along(old(self).front, amount as int),
    {
        let axis = self.front;
        self.shift(axis, amount);
    }

    /// Moves against the front axis by `amount` thousandths of a unit.
    pub fn move_backward(&mut self, amount: i64)
        requires
            old(self).wf(),
        ensures
            final(self).wf(),
            *final(self) == old(self).moved_along(neg(old(self).front), amount as int),
    {
        let axis = Vec3 { x: -self.front.x, y: -self.front.y, z: -self.front.z };
        self.shift(axis, amount);
    }

    /// Moves against the right axis by `amount` thousandths of a unit.
    pub fn move_left(&mut self, amount: i64)
        requires
            old(self).wf(),
        ensures
            final(self).wf(),
            *final(self) == old(self).moved_along(neg(old(self).right), amount as int),
    {
        let axis = Vec3 { x: -self.right.x, y: -self.right.y, z: -self.right.z };
        self.shift(axis, amount);
    }

    /// Moves along the right axis by `amount` thousandths of a unit.
    pub fn move_right(&mut self, amount: i64)
        requires
            old(self).wf(),
        ensures
            final(self).wf(),
            *final(self) == old(self).moved_along(old(self).right, amount as int),
    {
        let axis = self.right;
        self.shift(axis, amount);
    }

    /// Moves the position by `amount` along the given axis, clamping each
    /// component into the representable range.
    fn shift(&mut self, axis: Vec3, amount: i64)
        requires
            old(self).wf(),
            axis.bounded(2 * FX_ONE as int),
        ensures
            final(self).wf(),
            *final(self) == old(self).moved_along(axis, amount as int),
    {
        let a = fx_clamp(amount);
        proof {
            lemma_scaled_step_bounded(axis.x as int, a as int);
            lemma_scaled_step_bounded(axis.y as int, a as int);
            lemma_scaled_step_bounded(axis.z as int, a as int);
        }
        self.position = Vec3 {
            x: fx_add(self.position.x, div_trunc(axis.x * a, FX_ONE)),
            y: fx_add(self.position.y, div_trunc(axis.y * a, FX_ONE)),
            z: fx_add(self.position.z, div_trunc(axis.z * a, FX_ONE)),
        };
    }
}

/// A movement step scaled by an axis coordinate stays far inside the
/// machine range: the axis coordinate is at most two units, the clamped
/// amount at most the representable maximum.
proof fn lemma_scaled_step_bounded(c: int, a: int)
    requires
        -2000 <= c <= 2000,
        FX_MIN as int <= a <= FX_MAX as int,
    ensures
        -0x2000_0000_0000_0000 <= c * a <= 0x2000_0000_0000_0000,
{
    assert(-0x2000_0000_0000_0000 <= c * a <= 0x2000_0000_0000_0000) by (nonlinear_arith)
        requires
            -2000 <= c <= 2000,
            -1_000_000_000_000 <= a <= 1_000_000_000_000,
    ;
}

/// Two trigonometric coordinates multiply to at most one scaled unit.
proof fn lemma_unit_product_bounded(a: int, b: int)
    requires
        -1000 <= a <= 1000,
        -1000 <= b <= 1000,
    ensures
        -1_000_000 <= a * b <= 1_000_000,
{
    assert(-1_000_000 <= a * b <= 1_000_000) by (nonlinear_arith)
        requires
            -1000 <= a <= 1000,
            -1000 <= b <= 1000,
    ;
}

/// The cross product of two axis vectors, scaled back down by one unit.
pub open spec fn cross_scaled(a: Vec3, b: Vec3) -> Vec3 {
    Vec3 {
        x: divt(a.y * b.z - a.z * b.y, FX_ONE as int) as i64,
        y: divt(a.z * b.x - a.x * b.z, FX_ONE as int) as i64,
        z: divt(a.x * b.y - a.y * b.x, FX_ONE as int) as i64,
    }
}

} // verus!
