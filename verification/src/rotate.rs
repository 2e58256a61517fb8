//! The rotate strategy: turns the display by a multiple of 90 degrees.

use vstd::prelude::*;

verus! {

/// The four angles a rotate strategy can hold, already normalized into
/// `[0, 360)`; the parser guarantees this of every descriptor it produces.
pub open spec fn valid_angle(angle: int) -> bool {
    angle == 0 || angle == 90 || angle == 180 || angle == 270
}

/// The visible size a rotation exposes for a `w` x `h` matrix: a quarter or
/// three-quarter turn swaps width and height, a half or full turn keeps them.
pub open spec fn rotate_size(angle: int, w: int, h: int) -> (int, int) {
    if angle % 180 == 0 {
        (w, h)
    } else {
        (h, w)
    }
}

/// Where a rotation sends the visible point `(x, y)` on a `w` x `h` matrix.
pub open spec fn rotate_map(angle: int, w: int, h: int, x: int, y: int) -> (int, int) {
    if angle == 0 {
        (x, y)
    } else if angle == 90 {
        (w - y - 1, x)
    } else if angle == 180 {
        (w - x - 1, h - y - 1)
    } else {
        (y, h - x - 1)
    }
}

/// Rotates the output by a fixed angle, one of 0, 90, 180 or 270 degrees.
#[derive(Debug, Clone, Copy, PartialEq, Eq, Structural)]
pub struct RotatePixelMapper {
    /// The rotation angle in degrees, normalized into `[0, 360)`.
    pub angle: usize,
}

impl RotatePixelMapper {
    /// The angles the coordinate mapping is defined for.
    pub open spec fn wf(&self) -> bool {
        valid_angle(self.angle as int)
    }

    /// A quarter or three-quarter turn swaps the two dimensions; a half or
    /// full turn keeps them.
    pub fn get_size_mapping(&self, matrix_width: usize, matrix_height: usize) -> (r: [usize; 2])
        ensures
            (r[0] as int, r[1] as int) == rotate_size(
                self.angle as int,
                matrix_width as int,
                matrix_height as int,
            ),
    {
        if self.angle % 180 == 0 {
            [matrix_width, matrix_height]
        } else {
            [matrix_height, matrix_width]
        }
    }

    /// Translates a visible coordinate to the rotated matrix coordinate.
    /// The visible point must lie within the size this strategy returns from
    /// `get_size_mapping` for the same matrix dimensions.
    pub fn map_visible_to_matrix(
        &self,
        matrix_width: usize,
        matrix_height: usize,
        x: usize,
        y: usize,
    ) -> (r: [usize; 2])
        requires
            self.wf(),
            (x as int) < rotate_size(self.angle as int, matrix_width as int, matrix_height as int).0,
            (y as int) < rotate_size(self.angle as int, matrix_width as int, matrix_height as int).1,
        ensures
            (r[0] as int, r[1] as int) == rotate_map(
                self.angle as int,
                matrix_width as int,
                matrix_height as int,
                x as int,
                y as int,
            ),
            r[0] < matrix_width,
            r[1] < matrix_height,
    {
        if self.angle == 0 {
            [x, y]
        } else if self.angle == 90 {
            [matrix_width - y - 1, x]
        } else if self.angle == 180 {
            [matrix_width - x - 1, matrix_height - y - 1]
        } else {
            [y, matrix_height - x - 1]
        }
    }
}

/// Law: a rotation by 0 degrees is the identity, for sizes and coordinates.
pub proof fn lemma_rotate_zero_identity(w: int, h: int, x: int, y: int)
    ensures
        rotate_size(0, w, h) == (w, h),
        rotate_map(0, w, h, x, y) == (x, y),
{
}

/// Law: four quarter turns return the original size and the original point.
///
/// Rotations chain by feeding each stage's visible space to the next: the
/// stage closest to the hardware sees the true matrix size `(w, h)`, the next
/// one the swapped size `(h, w)`, and so on; a coordinate travels the chain
/// in the opposite direction, from the outermost visible space down to the
/// matrix.
pub proof fn lemma_rotate_four_times(w: int, h: int, x: int, y: int)
    requires
        0 <= x < w,
        0 <= y < h,
    ensures
        ({
            let s1 = rotate_size(90, w, h);
            let s2 = rotate_size(90, s1.0, s1.1);
            let s3 = rotate_size(90, s2.0, s2.1);
            rotate_size(90, s3.0, s3.1) == (w, h)
        }),
        ({
            let p3 = rotate_map(90, h, w, x, y);
            let p2 = rotate_map(90, w, h, p3.0, p3.1);
            let p1 = rotate_map(90, h, w, p2.0, p2.1);
            rotate_map(90, w, h, p1.0, p1.1) == (x, y)
        }),
{
}

} // verus!
