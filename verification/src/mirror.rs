//! The mirror strategy: flips the display along one axis.

use vstd::prelude::*;

verus! {

/// Where a mirror sends the visible point `(x, y)` on a `w` x `h` matrix:
/// a horizontal mirror reverses the column index, a vertical mirror the row
/// index.
pub open spec fn mirror_map(horizontal: bool, w: int, h: int, x: int, y: int) -> (int, int) {
    if horizontal {
        (w - 1 - x, y)
    } else {
        (x, h - 1 - y)
    }
}

/// Mirrors the output horizontally or vertically.  The visible size equals
/// the matrix size; only the mirrored axis' coordinate changes.
#[derive(Debug, Clone, Copy, PartialEq, Eq, Structural)]
pub struct MirrorPixelMapper {
    /// `true` mirrors horizontally (columns), `false` vertically (rows).
    pub horizontal: bool,
}

impl MirrorPixelMapper {
    /// The mirror does not change the size: the visible size is the matrix size.
    pub fn get_size_mapping(&self, matrix_width: usize, matrix_height: usize) -> (r: [usize; 2])
        ensures
            (r[0] as int, r[1] as int) == (matrix_width as int, matrix_height as int),
    {
        [matrix_width, matrix_height]
    }

    /// Translates a visible coordinate to the mirrored matrix coordinate.
    pub fn map_visible_to_matrix(
        &self,
        matrix_width: usize,
        matrix_height: usize,
        x: usize,
        y: usize,
    ) -> (r: [usize; 2])
        requires
            x < matrix_width,
            y < matrix_height,
        ensures
            (r[0] as int, r[1] as int) == mirror_map(
                self.horizontal,
                matrix_width as int,
                matrix_height as int,
                x as int,
                y as int,
            ),
            r[0] < matrix_width,
            r[1] < matrix_height,
    {
        if self.horizontal {
            [matrix_width - 1 - x, y]
        } else {
            [x, matrix_height - 1 - y]
        }
    }
}

/// Law: applying the same mirror twice returns the original point.
pub proof fn lemma_mirror_involution(horizontal: bool, w: int, h: int, x: int, y: int)
    requires
        0 <= x < w,
        0 <= y < h,
    ensures
        ({
            let m = mirror_map(horizontal, w, h, x, y);
            mirror_map(horizontal, w, h, m.0, m.1) == (x, y)
        }),
{
}

} // verus!
