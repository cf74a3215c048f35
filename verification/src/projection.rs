//! The stateful transform: parameters, the three matrices, and their
//! product, kept consistent through every mutation.
//!
//! A [`Projection`] holds the model parameters (translation, rotation,
//! scale), the camera parameters (position, look target, up vector), the
//! projection parameters (aspect ratio, mode, and the tangent of half the
//! fixed field of view), the three matrices built from them, and the
//! combined matrix.  Every setter rebuilds the affected matrix and then the
//! combined one, synchronously; after any sequence of calls the combined
//! matrix is exactly the product `projection * view * model`
//! ([`Projection::composite_consistent`]).
//!
//! The rotation angles are stored together with their sines and cosines,
//! which the caller supplies already rounded to single precision: the
//! platform's sine owns its last bit, so the library does not compute it.
//! A fresh object carries no rotation, and the sine and cosine of a zero
//! angle are exact in the format: zero and one.

use crate::fbits::{div_bits, f32_div, F32_ONE_BITS, F32_ZERO_BITS};
use crate::mat4::{mat_mul_spec, Mat4};
use crate::transform::{
    aspect_admissible, aspect_is_admissible, create_projection, create_transforms_from_sin_cos,
    create_view, create_view_projection, model_matrix_spec, projection_matrix_spec,
    view_matrix_spec,
};
use crate::vec3::{one3, zero3};
use vstd::prelude::*;

verus! {

pub struct Projection {
    pub model_translation: [u32; 3],
    pub model_rotation: [u32; 3],
    pub model_rotation_sin: [u32; 3],
    pub model_rotation_cos: [u32; 3],
    pub model_scale: [u32; 3],
    pub model_matrix: Mat4,

    pub camera_position: [u32; 3],
    pub look_direction: [u32; 3],
    pub up_direction: [u32; 3],
    pub view_matrix: Mat4,

    pub aspect_ratio: u32,
    pub is_perspective: bool,
    pub tan_half_fov: u32,
    pub projection_matrix: Mat4,

    pub mvp_matrix: Mat4,
}

/// The y axis, the default up direction.
pub open spec fn unit_y3() -> Seq<u32> {
    seq![F32_ZERO_BITS, F32_ONE_BITS, F32_ZERO_BITS]
}

/// The default camera position, (3, 1.5, 3).
pub open spec fn default_eye3() -> Seq<u32> {
    seq![0x4040_0000u32, 0x3FC0_0000u32, 0x4040_0000u32]
}

impl Projection {
    /// The invariant of the type: the combined matrix is exactly the
    /// product `projection * view * model` of the three stored matrices.
    pub open spec fn composite_consistent(self) -> bool {
        self.mvp_matrix@ == mat_mul_spec(
            mat_mul_spec(self.projection_matrix@, self.view_matrix@),
            self.model_matrix@,
        )
    }

    /// The model matrix equals what the stored model parameters build.
    /// Holds until a prebuilt matrix is put in by [`Projection::replace_model_matrix`].
    pub open spec fn model_matrix_current(self) -> bool {
        self.model_matrix@ == model_matrix_spec(
            self.model_translation@,
            self.model_rotation_sin@,
            self.model_rotation_cos@,
            self.model_scale@,
        )
    }

    /// The view matrix equals what the stored camera parameters build.
    pub open spec fn view_matrix_current(self) -> bool {
        self.view_matrix@ == view_matrix_spec(
            self.camera_position@,
            self.look_direction@,
            self.up_direction@,
        )
    }

    /// The projection matrix equals what the stored projection parameters
    /// build.
    pub open spec fn projection_matrix_current(self) -> bool {
        self.projection_matrix@ == projection_matrix_spec(
            self.aspect_ratio,
            self.is_perspective,
            self.tan_half_fov,
        )
    }

    /// The model parameters and the model matrix of `a` equal those of `b`.
    pub open spec fn same_model(a: Projection, b: Projection) -> bool {
        a.model_translation@ == b.model_translation@
        && a.model_rotation@ == b.model_rotation@
        && a.model_rotation_sin@ == b.model_rotation_sin@
        && a.model_rotation_cos@ == b.model_rotation_cos@
        && a.model_scale@ == b.model_scale@
        && a.model_matrix@ == b.model_matrix@
    }

    /// The camera parameters and the view matrix of `a` equal those of `b`.
    pub open spec fn same_camera(a: Projection, b: Projection) -> bool {
        a.camera_position@ == b.camera_position@
        && a.look_direction@ == b.look_direction@
        && a.up_direction@ == b.up_direction@
        && a.view_matrix@ == b.view_matrix@
    }

    /// The projection parameters and matrix of `a` equal those of `b`.
    pub open spec fn same_projection(a: Projection, b: Projection) -> bool {
        a.aspect_ratio == b.aspect_ratio
        && a.is_perspective == b.is_perspective
        && a.tan_half_fov == b.tan_half_fov
        && a.projection_matrix@ == b.projection_matrix@
    }

    /// What a freshly built object holds: default model (no translation, no
    /// rotation, unit scale), default camera at (3, 1.5, 3) looking at the
    /// origin with y up, perspective mode with aspect `width / height`, and
    /// all four matrices built from those parameters.
    pub open spec fn fresh_spec(self, width: u32, height: u32, tan_half_fov: u32) -> bool {
        self.model_translation@ == zero3()
        && self.model_rotation@ == zero3()
        && self.model_rotation_sin@ == zero3()
        && self.model_rotation_cos@ == one3()
        && self.model_scale@ == one3()
        && self.camera_position@ == default_eye3()
        && self.look_direction@ == zero3()
        && self.up_direction@ == unit_y3()
        && self.aspect_ratio == div_bits(width, height)
        && self.is_perspective == true
        && self.tan_half_fov == tan_half_fov
        && self.model_matrix_current()
        && self.view_matrix_current()
        && self.projection_matrix_current()
        && self.composite_consistent()
    }

    /// A fresh perspective projection for a surface of the given size.
    /// `tan_half_fov` is the platform's tangent of
    /// [`crate::transform::HALF_FOV_RADIANS_BITS`].  The aspect ratio
    /// `width / height` must be admissible for the perspective branch;
    /// [`Projection::try_new`] checks it at run time instead.
    pub fn new(width: u32, height: u32, tan_half_fov: u32) -> (r: Projection)
        requires
            aspect_admissible(div_bits(width, height)),
        ensures
            r.fresh_spec(width, height, tan_half_fov),
    {
        let model_translation = [F32_ZERO_BITS, F32_ZERO_BITS, F32_ZERO_BITS];
        let model_rotation = [F32_ZERO_BITS, F32_ZERO_BITS, F32_ZERO_BITS];
        let model_rotation_sin = [F32_ZERO_BITS, F32_ZERO_BITS, F32_ZERO_BITS];
        let model_rotation_cos = [F32_ONE_BITS, F32_ONE_BITS, F32_ONE_BITS];
        let model_scale = [F32_ONE_BITS, F32_ONE_BITS, F32_ONE_BITS];

        let model_matrix = create_transforms_from_sin_cos(
            model_translation,
            model_rotation_sin,
            model_rotation_cos,
            model_scale,
        );

        let camera_position = [0x4040_0000u32, 0x3FC0_0000u32, 0x4040_0000u32];
        let look_direction = [F32_ZERO_BITS, F32_ZERO_BITS, F32_ZERO_BITS];
        let up_direction = [F32_ZERO_BITS, F32_ONE_BITS, F32_ZERO_BITS];
        let aspect_ratio = f32_div(width, height);
        let is_perspective = true;

        let (view_matrix, projection_matrix, view_projection_matrix) = create_view_projection(
            camera_position,
            look_direction,
            up_direction,
            aspect_ratio,
            is_perspective,
            tan_half_fov,
        );
        let mvp_matrix = view_projection_matrix.multiply(&model_matrix);

        let r = Projection {
            aspect_ratio,
            camera_position,
            is_perspective,
            tan_half_fov,
            look_direction,
            model_rotation,
            model_rotation_sin,
            model_rotation_cos,
            model_scale,
            model_translation,
            up_direction,
            model_matrix,
            view_matrix,
            projection_matrix,
            mvp_matrix,
        };
        proof {
            assert(r.model_translation@ =~= zero3());
            assert(r.model_rotation@ =~= zero3());
            assert(r.model_rotation_sin@ =~= zero3());
            assert(r.model_rotation_cos@ =~= one3());
            assert(r.model_scale@ =~= one3());
            assert(r.camera_position@ =~= default_eye3());
            assert(r.look_direction@ =~= zero3());
            assert(r.up_direction@ =~= unit_y3());
        }
        r
    }

    /// Like [`Projection::new`], but checks the aspect ratio at run time:
    /// nothing is built when `width / height` is inadmissible for the
    /// perspective branch.
    pub fn try_new(width: u32, height: u32, tan_half_fov: u32) -> (r: Option<Projection>)
        ensures
            r is Some <==> aspect_admissible(div_bits(width, height)),
            (r matches Some(p) ==> p.fresh_spec(width, height, tan_half_fov)),
    {
        let aspect_ratio = f32_div(width, height);
        if aspect_is_admissible(aspect_ratio) {
            Some(Projection::new(width, height, tan_half_fov))
        } else {
            None
        }
    }

    pub fn model_translation(&self) -> (r: [u32; 3])
        ensures
            r@ == self.model_translation@,
    {
        self.model_translation
    }

    pub fn model_rotation(&self) -> (r: [u32; 3])
        ensures
            r@ == self.model_rotation@,
    {
        self.model_rotation
    }

    pub fn model_scale(&self) -> (r: [u32; 3])
        ensures
            r@ == self.model_scale@,
    {
        self.model_scale
    }

    pub fn model_matrix(&self) -> (r: Mat4)
        ensures
            r@ == self.model_matrix@,
    {
        self.model_matrix
    }

    pub fn camera_position(&self) -> (r: [u32; 3])
        ensures
            r@ == self.camera_position@,
    {
        self.camera_position
    }

    pub fn look_direction(&self) -> (r: [u32; 3])
        ensures
            r@ == self.look_direction@,
    {
        self.look_direction
    }

    pub fn up_direction(&self) -> (r: [u32; 3])
        ensures
            r@ == self.up_direction@,
    {
        self.up_direction
    }

    pub fn view_matrix(&self) -> (r: Mat4)
        ensures
            r@ == self.view_matrix@,
    {
        self.view_matrix
    }

    pub fn aspect_ratio(&self) -> (r: u32)
        ensures
            r == self.aspect_ratio,
    {
        self.aspect_ratio
    }

    pub fn is_perspective(&self) -> (r: bool)
        ensures
            r == self.is_perspective,
    {
        self.is_perspective
    }

    pub fn projection_matrix(&self) -> (r: Mat4)
        ensures
            r@ == self.projection_matrix@,
    {
        self.projection_matrix
    }

    pub fn mvp_matrix(&self) -> (r: Mat4)
        ensures
            r@ == self.mvp_matrix@,
    {
        self.mvp_matrix
    }

    /// The model matrix as sixteen flat column-major scalars.
    pub fn model_matrix_slice(&self) -> (r: [u32; 16])
        ensures
            r@ == self.model_matrix@,
    {
        self.model_matrix.entries()
    }

    /// The view matrix as sixteen flat column-major scalars.
    pub fn view_matrix_slice(&self) -> (r: [u32; 16])
        ensures
            r@ == self.view_matrix@,
    {
        self.view_matrix.entries()
    }

    /// The projection matrix as sixteen flat column-major scalars.
    pub fn projection_matrix_slice(&self) -> (r: [u32; 16])
        ensures
            r@ == self.projection_matrix@,
    {
        self.projection_matrix.entries()
    }

    /// The combined matrix as sixteen flat column-major scalars, the form a
    /// uniform buffer takes.
    pub fn mvp_matrix_slice(&self) -> (r: [u32; 16])
        ensures
            r@ == self.mvp_matrix@,
    {
        self.mvp_matrix.entries()
    }

    pub fn set_model_translation(&mut self, translation_vector: [u32; 3])
        ensures
            final(self).model_translation@ == translation_vector@,
            final(self).model_rotation@ == old(self).model_rotation@,
            final(self).model_rotation_sin@ == old(self).model_rotation_sin@,
            final(self).model_rotation_cos@ == old(self).model_rotation_cos@,
            final(self).model_scale@ == old(self).model_scale@,
            Self::same_camera(*final(self), *old(self)),
            Self::same_projection(*final(self), *old(self)),
            final(self).model_matrix_current(),
            final(self).composite_consistent(),
    {
        self.model_translation = translation_vector;
        self.update_model_matrix();
    }

    /// Sets the rotation angles together with their sines and cosines, each
    /// rounded to single precision by the caller.
    pub fn set_model_rotation(
        &mut self,
        rotation_vector: [u32; 3],
        rotation_sin: [u32; 3],
        rotation_cos: [u32; 3],
    )
        ensures
            final(self).model_translation@ == old(self).model_translation@,
            final(self).model_rotation@ == rotation_vector@,
            final(self).model_rotation_sin@ == rotation_sin@,
            final(self).model_rotation_cos@ == rotation_cos@,
            final(self).model_scale@ == old(self).model_scale@,
            Self::same_camera(*final(self), *old(self)),
            Self::same_projection(*final(self), *old(self)),
            final(self).model_matrix_current(),
            final(self).composite_consistent(),
    {
        self.model_rotation = rotation_vector;
        self.model_rotation_sin = rotation_sin;
        self.model_rotation_cos = rotation_cos;
        self.update_model_matrix();
    }

    pub fn set_model_scale(&mut self, scale_vector: [u32; 3])
        ensures
            final(self).model_translation@ == old(self).model_translation@,
            final(self).model_rotation@ == old(self).model_rotation@,
            final(self).model_rotation_sin@ == old(self).model_rotation_sin@,
            final(self).model_rotation_cos@ == old(self).model_rotation_cos@,
            final(self).model_scale@ == scale_vector@,
            Self::same_camera(*final(self), *old(self)),
            Self::same_projection(*final(self), *old(self)),
            final(self).model_matrix_current(),
            final(self).composite_consistent(),
    {
        self.model_scale = scale_vector;
        self.update_model_matrix();
    }

    /// Rebuilds the model matrix from the given parameters without storing
    /// them, then the combined matrix.
    pub fn set_model_matrix(
        &mut self,
        translation: [u32; 3],
        rotation_sin: [u32; 3],
        rotation_cos: [u32; 3],
        scaling: [u32; 3],
    )
        ensures
            final(self).model_matrix@ == model_matrix_spec(
                translation@,
                rotation_sin@,
                rotation_cos@,
                scaling@,
            ),
            final(self).model_translation@ == old(self).model_translation@,
            final(self).model_rotation@ == old(self).model_rotation@,
            final(self).model_rotation_sin@ == old(self).model_rotation_sin@,
            final(self).model_rotation_cos@ == old(self).model_rotation_cos@,
            final(self).model_scale@ == old(self).model_scale@,
            Self::same_camera(*final(self), *old(self)),
            Self::same_projection(*final(self), *old(self)),
            final(self).composite_consistent(),
    {
        self.model_matrix = create_transforms_from_sin_cos(
            translation,
            rotation_sin,
            rotation_cos,
            scaling,
        );
        self.update_mvp_matrix();
    }

    pub fn set_camera_position(&mut self, position_point: [u32; 3])
        ensures
            final(self).camera_position@ == position_point@,
            final(self).look_direction@ == old(self).look_direction@,
            final(self).up_direction@ == old(self).up_direction@,
            Self::same_model(*final(self), *old(self)),
            Self::same_projection(*final(self), *old(self)),
            final(self).view_matrix_current(),
            final(self).composite_consistent(),
    {
        self.camera_position = position_point;
        self.update_view_matrix();
    }

    pub fn set_look_direction(&mut self, direction_point: [u32; 3])
        ensures
            final(self).camera_position@ == old(self).camera_position@,
            final(self).look_direction@ == direction_point@,
            final(self).up_direction@ == old(self).up_direction@,
            Self::same_model(*final(self), *old(self)),
            Self::same_projection(*final(self), *old(self)),
            final(self).view_matrix_current(),
            final(self).composite_consistent(),
    {
        self.look_direction = direction_point;
        self.update_view_matrix();
    }

    pub fn set_up_direction(&mut self, direction_vector: [u32; 3])
        ensures
            final(self).camera_position@ == old(self).camera_position@,
            final(self).look_direction@ == old(self).look_direction@,
            final(self).up_direction@ == direction_vector@,
            Self::same_model(*final(self), *old(self)),
            Self::same_projection(*final(self), *old(self)),
            final(self).view_matrix_current(),
            final(self).composite_consistent(),
    {
        self.up_direction = direction_vector;
        self.update_view_matrix();
    }

    /// Rebuilds the view matrix from the given camera parameters without
    /// storing them, then the combined matrix.
    pub fn set_view_matrix(
        &mut self,
        camera_position: [u32; 3],
        look_direction: [u32; 3],
        up_direction: [u32; 3],
    )
        ensures
            final(self).view_matrix@ == view_matrix_spec(
                camera_position@,
                look_direction@,
                up_direction@,
            ),
            final(self).camera_position@ == old(self).camera_position@,
            final(self).look_direction@ == old(self).look_direction@,
            final(self).up_direction@ == old(self).up_direction@,
            Self::same_model(*final(self), *old(self)),
            Self::same_projection(*final(self), *old(self)),
            final(self).composite_consistent(),
    {
        self.view_matrix = create_view(camera_position, look_direction, up_direction);
        self.update_mvp_matrix();
    }

    /// The stored aspect ratio must be admissible when the new ratio meets
    /// the perspective branch, as the perspective build rejects a
    /// near-zero ratio.
    pub fn set_aspect_ratio(&mut self, ratio: u32)
        requires
            old(self).is_perspective ==> aspect_admissible(ratio),
        ensures
            final(self).aspect_ratio == ratio,
            final(self).is_perspective == old(self).is_perspective,
            final(self).tan_half_fov == old(self).tan_half_fov,
            Self::same_model(*final(self), *old(self)),
            Self::same_camera(*final(self), *old(self)),
            final(self).projection_matrix_current(),
            final(self).composite_consistent(),
    {
        self.aspect_ratio = ratio;
        self.update_projection_matrix();
    }

    pub fn set_is_perspective(&mut self, is_perspective: bool)
        requires
            is_perspective ==> aspect_admissible(old(self).aspect_ratio),
        ensures
            final(self).aspect_ratio == old(self).aspect_ratio,
            final(self).is_perspective == is_perspective,
            final(self).tan_half_fov == old(self).tan_half_fov,
            Self::same_model(*final(self), *old(self)),
            Self::same_camera(*final(self), *old(self)),
            final(self).projection_matrix_current(),
            final(self).composite_consistent(),
    {
        self.is_perspective = is_perspective;
        self.update_projection_matrix();
    }

    /// Rebuilds the projection matrix from the given parameters without
    /// storing them, then the combined matrix.
    pub fn set_projection_matrix(&mut self, aspect_ratio: u32, is_perspective: bool)
        requires
            is_perspective ==> aspect_admissible(aspect_ratio),
        ensures
            final(self).projection_matrix@ == projection_matrix_spec(
                aspect_ratio,
                is_perspective,
                old(self).tan_half_fov,
            ),
            final(self).aspect_ratio == old(self).aspect_ratio,
            final(self).is_perspective == old(self).is_perspective,
            final(self).tan_half_fov == old(self).tan_half_fov,
            Self::same_model(*final(self), *old(self)),
            Self::same_camera(*final(self), *old(self)),
            final(self).composite_consistent(),
    {
        self.projection_matrix = create_projection(aspect_ratio, is_perspective, self.tan_half_fov);
        self.update_mvp_matrix();
    }

    /// Puts a prebuilt projection matrix in, leaving the stored projection
    /// parameters as they are, and rebuilds the combined matrix.
    pub fn replace_projection_matrix(&mut self, projection_matrix: Mat4)
        ensures
            final(self).projection_matrix@ == projection_matrix@,
            final(self).aspect_ratio == old(self).aspect_ratio,
            final(self).is_perspective == old(self).is_perspective,
            final(self).tan_half_fov == old(self).tan_half_fov,
            Self::same_model(*final(self), *old(self)),
            Self::same_camera(*final(self), *old(self)),
            final(self).composite_consistent(),
    {
        self.projection_matrix = projection_matrix;
        self.update_mvp_matrix();
    }

    /// Puts a prebuilt model matrix in, leaving the stored model
    /// parameters as they are, and rebuilds the combined matrix.
    pub fn replace_model_matrix(&mut self, model_matrix: Mat4)
        ensures
            final(self).model_matrix@ == model_matrix@,
            final(self).model_translation@ == old(self).model_translation@,
            final(self).model_rotation@ == old(self).model_rotation@,
            final(self).model_rotation_sin@ == old(self).model_rotation_sin@,
            final(self).model_rotation_cos@ == old(self).model_rotation_cos@,
            final(self).model_scale@ == old(self).model_scale@,
            Self::same_camera(*final(self), *old(self)),
            Self::same_projection(*final(self), *old(self)),
            final(self).composite_consistent(),
    {
        self.model_matrix = model_matrix;
        self.update_mvp_matrix();
    }

    /// Puts a prebuilt view matrix in, leaving the stored camera
    /// parameters as they are, and rebuilds the combined matrix.
    pub fn replace_view_matrix(&mut self, view_matrix: Mat4)
        ensures
            final(self).view_matrix@ == view_matrix@,
            final(self).camera_position@ == old(self).camera_position@,
            final(self).look_direction@ == old(self).look_direction@,
            final(self).up_direction@ == old(self).up_direction@,
            Self::same_model(*final(self), *old(self)),
            Self::same_projection(*final(self), *old(self)),
            final(self).composite_consistent(),
    {
        self.view_matrix = view_matrix;
        self.update_mvp_matrix();
    }

    fn update_mvp_matrix(&mut self)
        ensures
            Self::same_model(*final(self), *old(self)),
            Self::same_camera(*final(self), *old(self)),
            Self::same_projection(*final(self), *old(self)),
            final(self).composite_consistent(),
    {
        self.mvp_matrix = self
            .projection_matrix
            .multiply(&self.view_matrix)
            .multiply(&self.model_matrix);
    }

    fn update_model_matrix(&mut self)
        ensures
            final(self).model_translation@ == old(self).model_translation@,
            final(self).model_rotation@ == old(self).model_rotation@,
            final(self).model_rotation_sin@ == old(self).model_rotation_sin@,
            final(self).model_rotation_cos@ == old(self).model_rotation_cos@,
            final(self).model_scale@ == old(self).model_scale@,
            Self::same_camera(*final(self), *old(self)),
            Self::same_projection(*final(self), *old(self)),
            final(self).model_matrix_current(),
            final(self).composite_consistent(),
    {
        let translation = self.model_translation;
        let rotation_sin = self.model_rotation_sin;
        let rotation_cos = self.model_rotation_cos;
        let scaling = self.model_scale;
        self.set_model_matrix(translation, rotation_sin, rotation_cos, scaling)
    }

    fn update_view_matrix(&mut self)
        ensures
            final(self).camera_position@ == old(self).camera_position@,
            final(self).look_direction@ == old(self).look_direction@,
            final(self).up_direction@ == old(self).up_direction@,
            Self::same_model(*final(self), *old(self)),
            Self::same_projection(*final(self), *old(self)),
            final(self).view_matrix_current(),
            final(self).composite_consistent(),
    {
        let camera_position = self.camera_position;
        let look_direction = self.look_direction;
        let up_direction = self.up_direction;
        self.set_view_matrix(camera_position, look_direction, up_direction)
    }

    fn update_projection_matrix(&mut self)
        requires
            old(self).is_perspective ==> aspect_admissible(old(self).aspect_ratio),
        ensures
            final(self).aspect_ratio == old(self).aspect_ratio,
            final(self).is_perspective == old(self).is_perspective,
            final(self).tan_half_fov == old(self).tan_half_fov,
            Self::same_model(*final(self), *old(self)),
            Self::same_camera(*final(self), *old(self)),
            final(self).projection_matrix_current(),
            final(self).composite_consistent(),
    {
        let aspect_ratio = self.aspect_ratio;
        let is_perspective = self.is_perspective;
        self.set_projection_matrix(aspect_ratio, is_perspective)
    }
}

} // verus!
