//! A yaw-and-pitch camera and a controller that steers it.
//!
//! The camera holds a position and two angles in radians.  Its view matrix
//! looks along the direction those angles describe, with y up.  The
//! controller accumulates a pending rotation, applies it scaled by its
//! speed, and clamps the pitch to just under a quarter turn either way so
//! the view never flips over the pole.

use crate::fbits::{
    add_bits, f32_add, f32_lt, f32_mul, f32_neg, mul_bits, neg_bits, spec_f32_lt, F32_ONE_BITS,
    F32_ZERO_BITS,
};
use crate::mat4::Mat4;
use crate::transform::{create_look_to, look_to_spec};
use crate::vec3::{normalize3_spec, vec3_normalize};
use vstd::prelude::*;

verus! {

/// Radians per degree (0.017453292), the factor the angle conversion uses:
/// pi / 180 evaluated in double precision, then rounded to single.
pub const DEG_TO_RAD_BITS: u32 = 0x3C8E_FA35;

/// The pitch clamp, 89 degrees in radians (1.5533431): the bits of
/// `89.0 * pi / 180.0` evaluated left to right in single precision.
pub const PITCH_LIMIT_BITS: u32 = 0x3FC6_D3F2;

pub struct Camera {
    pub position: [u32; 3],
    pub yaw: u32,
    pub pitch: u32,
}

/// The view direction of a camera whose yaw and pitch have the given sines
/// and cosines: `(cos p * cos y, sin p, cos p * sin y)`, normalised.
pub open spec fn camera_direction_spec(
    sin_yaw: u32,
    cos_yaw: u32,
    sin_pitch: u32,
    cos_pitch: u32,
) -> Seq<u32> {
    normalize3_spec(
        seq![
            mul_bits(cos_pitch, cos_yaw),
            sin_pitch,
            mul_bits(cos_pitch, sin_yaw),
        ],
    )
}

/// The camera's view matrix: look along the direction of the angles, y up.
pub open spec fn camera_view_spec(
    position: Seq<u32>,
    sin_yaw: u32,
    cos_yaw: u32,
    sin_pitch: u32,
    cos_pitch: u32,
) -> Seq<u32> {
    look_to_spec(
        position,
        camera_direction_spec(sin_yaw, cos_yaw, sin_pitch, cos_pitch),
        seq![F32_ZERO_BITS, F32_ONE_BITS, F32_ZERO_BITS],
    )
}

/// The pitch clamped to [`PITCH_LIMIT_BITS`] on either side; a NaN pitch
/// fails both comparisons and passes through.
pub open spec fn clamp_pitch_spec(pitch: u32) -> u32 {
    if spec_f32_lt(pitch, neg_bits(PITCH_LIMIT_BITS)) {
        neg_bits(PITCH_LIMIT_BITS)
    } else if spec_f32_lt(PITCH_LIMIT_BITS, pitch) {
        PITCH_LIMIT_BITS
    } else {
        pitch
    }
}

impl Camera {
    /// A camera at `position`; the yaw and pitch arrive in degrees and are
    /// stored in radians.
    pub fn new(position: [u32; 3], yaw_degrees: u32, pitch_degrees: u32) -> (r: Camera)
        ensures
            r.position@ == position@,
            r.yaw == mul_bits(yaw_degrees, DEG_TO_RAD_BITS),
            r.pitch == mul_bits(pitch_degrees, DEG_TO_RAD_BITS),
    {
        Camera {
            position,
            yaw: f32_mul(yaw_degrees, DEG_TO_RAD_BITS),
            pitch: f32_mul(pitch_degrees, DEG_TO_RAD_BITS),
        }
    }

    pub fn position(&self) -> (r: [u32; 3])
        ensures
            r@ == self.position@,
    {
        self.position
    }

    pub fn yaw(&self) -> (r: u32)
        ensures
            r == self.yaw,
    {
        self.yaw
    }

    pub fn pitch(&self) -> (r: u32)
        ensures
            r == self.pitch,
    {
        self.pitch
    }

    pub fn mut_position(&mut self) -> (r: &mut [u32; 3])
        ensures
            *r == old(self).position,
            final(self).position == *final(r),
            final(self).yaw == old(self).yaw,
            final(self).pitch == old(self).pitch,
    {
        &mut self.position
    }

    pub fn mut_yaw(&mut self) -> (r: &mut u32)
        ensures
            *r == old(self).yaw,
            final(self).yaw == *final(r),
            final(self).position == old(self).position,
            final(self).pitch == old(self).pitch,
    {
        &mut self.yaw
    }

    pub fn mut_pitch(&mut self) -> (r: &mut u32)
        ensures
            *r == old(self).pitch,
            final(self).pitch == *final(r),
            final(self).position == old(self).position,
            final(self).yaw == old(self).yaw,
    {
        &mut self.pitch
    }

    /// The view matrix.  The caller hands in the sines and cosines of the
    /// stored yaw and pitch, each rounded to single precision; the
    /// platform's sine owns its last bit, so the library does not compute
    /// them.
    pub fn view_matrix(
        &self,
        sin_yaw: u32,
        cos_yaw: u32,
        sin_pitch: u32,
        cos_pitch: u32,
    ) -> (r: Mat4)
        ensures
            r@ == camera_view_spec(self.position@, sin_yaw, cos_yaw, sin_pitch, cos_pitch),
    {
        let direction = [
            f32_mul(cos_pitch, cos_yaw),
            sin_pitch,
            f32_mul(cos_pitch, sin_yaw),
        ];
        proof {
            assert(direction@ =~= seq![
                mul_bits(cos_pitch, cos_yaw),
                sin_pitch,
                mul_bits(cos_pitch, sin_yaw),
            ]);
        }
        let normalized = vec3_normalize(&direction);
        let up = [F32_ZERO_BITS, F32_ONE_BITS, F32_ZERO_BITS];
        proof {
            assert(up@ =~= seq![F32_ZERO_BITS, F32_ONE_BITS, F32_ZERO_BITS]);
        }
        create_look_to(self.position, normalized, up)
    }
}

pub struct CameraController {
    pub rotation: [u32; 2],
    pub speed: u32,
}

impl CameraController {
    /// A controller with no pending rotation.
    pub fn new(speed: u32) -> (r: CameraController)
        ensures
            r.rotation@ == seq![F32_ZERO_BITS, F32_ZERO_BITS],
            r.speed == speed,
    {
        let r = CameraController {
            rotation: [F32_ZERO_BITS, F32_ZERO_BITS],
            speed,
        };
        proof {
            assert(r.rotation@ =~= seq![F32_ZERO_BITS, F32_ZERO_BITS]);
        }
        r
    }

    /// Records the pending rotation, yaw first, pitch second.
    pub fn set_rotation(&mut self, rotate_x: u32, rotate_y: u32)
        ensures
            final(self).rotation@ == seq![rotate_x, rotate_y],
            final(self).speed == old(self).speed,
    {
        self.rotation = [rotate_x, rotate_y];
        proof {
            assert(self.rotation@ =~= seq![rotate_x, rotate_y]);
        }
    }

    /// Applies the pending rotation to the camera, scaled by the speed,
    /// clears it, and clamps the pitch to just under a quarter turn.
    pub fn update_camera(&mut self, camera: &mut Camera)
        ensures
            final(self).rotation@ == seq![F32_ZERO_BITS, F32_ZERO_BITS],
            final(self).speed == old(self).speed,
            final(camera).position == old(camera).position,
            final(camera).yaw == add_bits(
                old(camera).yaw,
                mul_bits(old(self).rotation@[0], old(self).speed),
            ),
            final(camera).pitch == clamp_pitch_spec(
                add_bits(old(camera).pitch, mul_bits(old(self).rotation@[1], old(self).speed)),
            ),
    {
        camera.yaw = f32_add(camera.yaw, f32_mul(self.rotation[0], self.speed));
        camera.pitch = f32_add(camera.pitch, f32_mul(self.rotation[1], self.speed));

        self.rotation = [F32_ZERO_BITS, F32_ZERO_BITS];
        proof {
            assert(self.rotation@ =~= seq![F32_ZERO_BITS, F32_ZERO_BITS]);
        }

        let lower = f32_neg(PITCH_LIMIT_BITS);
        if f32_lt(camera.pitch, lower) {
            camera.pitch = lower;
        } else if f32_lt(PITCH_LIMIT_BITS, camera.pitch) {
            camera.pitch = PITCH_LIMIT_BITS;
        }
    }
}

} // verus!
