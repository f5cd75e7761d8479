//! The two transforms of a frame: the projection, which follows the canvas,
//! and the model-view matrix, which does not.

use crate::gl::Perspective;
use vstd::prelude::*;

verus! {

/// The vertical field of view, in degrees.
pub const FIELD_OF_VIEW: u32 = 45;

/// The distance of the near plane, in tenths of a unit.
pub const NEAR_TENTHS: u32 = 1;

/// The distance of the far plane, in tenths of a unit.
pub const FAR_TENTHS: u32 = 1000;

/// How far from the camera the model stands, along the view axis.
pub const CAMERA_DISTANCE: i32 = 6;

/// The projection for a canvas of `width` by `height` pixels: the field of
/// view and the two planes are fixed, only the aspect ratio follows the canvas.
pub open spec fn projection_for(width: u32, height: u32) -> Perspective {
    Perspective {
        fov_degrees: FIELD_OF_VIEW,
        width,
        height,
        near_tenths: NEAR_TENTHS,
        far_tenths: FAR_TENTHS,
    }
}

/// The identity transform moved by `(x, y, z)`, column after column.
pub open spec fn translation(x: i32, y: i32, z: i32) -> Seq<i32> {
    seq![1i32, 0, 0, 0, 0, 1, 0, 0, 0, 0, 1, 0, x, y, z, 1]
}

/// The model-view matrix: the identity moved away from the camera.
pub open spec fn model_view() -> Seq<i32> {
    translation(0, 0, (-CAMERA_DISTANCE) as i32)
}

/// Builds the projection for a canvas of `width` by `height` pixels.
pub fn perspective(width: u32, height: u32) -> (projection: Perspective)
    ensures
        projection == projection_for(width, height),
{
    Perspective {
        fov_degrees: FIELD_OF_VIEW,
        width,
        height,
        near_tenths: NEAR_TENTHS,
        far_tenths: FAR_TENTHS,
    }
}

/// Builds the identity transform moved by `(x, y, z)`.
pub fn translate(x: i32, y: i32, z: i32) -> (matrix: Vec<i32>)
    ensures
        matrix@ == translation(x, y, z),
{
    let matrix: Vec<i32> = vec![1, 0, 0, 0, 0, 1, 0, 0, 0, 0, 1, 0, x, y, z, 1];
    assert(matrix@ =~= translation(x, y, z));
    matrix
}

/// Builds the model-view matrix.
pub fn model_view_matrix() -> (matrix: Vec<i32>)
    ensures
        matrix@ == model_view(),
{
    translate(0, 0, -CAMERA_DISTANCE)
}

/// The model-view matrix puts the model `CAMERA_DISTANCE` units down the
/// view axis and leaves it as it is otherwise.
pub proof fn model_view_is_a_translation()
    ensures
        model_view().len() == 16,
        forall|column: int, row: int|
            0 <= column < 3 && 0 <= row < 4 ==> #[trigger] model_view()[4 * column + row] == (if row
                == column {
                1i32
            } else {
                0i32
            }),
        model_view()[12] == 0,
        model_view()[13] == 0,
        model_view()[14] == -6,
        model_view()[15] == 1,
{
    assert forall|column: int, row: int| 0 <= column < 3 && 0 <= row < 4 implies #[trigger] model_view()[4 * column + row] == (if row == column { 1i32 } else { 0i32 }) by {
        assert(4 * column + row < 12);
    }
}

} // verus!
