//! The mapping capability: one closed type over the three strategies, with
//! the two operations every strategy offers.

use vstd::prelude::*;
use crate::mirror::{mirror_map, MirrorPixelMapper};
use crate::rotate::{rotate_map, rotate_size, RotatePixelMapper};
use crate::ufold::{ufold_map, ufold_panel_height, ufold_size, ufold_slab_height, UArrangeMapper};

verus! {

/// A pixel mapper translates the logical ("visible") pixel space an
/// application draws into to the physical pixel space of the wired panel
/// matrix.  `get_size_mapping` tells the rendering pipeline the visible
/// size for a given matrix size; `map_visible_to_matrix` translates one
/// visible coordinate per pixel during buffer transfer.
///
/// Mappers may be chained in caller-specified order: the visible space one
/// mapper exposes becomes the matrix space the next one maps from.
#[derive(Debug, Clone, Copy, PartialEq, Eq, Structural)]
pub enum NamedPixelMapper {
    /// Mirrors along one axis.
    Mirror(MirrorPixelMapper),
    /// Rotates by a multiple of 90 degrees.
    Rotate(RotatePixelMapper),
    /// Folds one long chain into a U shape.
    UArrange(UArrangeMapper),
}

impl NamedPixelMapper {
    /// The parameters the strategy's mapping is defined for.
    pub open spec fn wf(&self) -> bool {
        match *self {
            NamedPixelMapper::Mirror(_) => true,
            NamedPixelMapper::Rotate(r) => r.wf(),
            NamedPixelMapper::UArrange(u) => u.wf(),
        }
    }

    /// The visible size the strategy exposes for a `w` x `h` matrix.
    pub open spec fn spec_size(&self, w: int, h: int) -> (int, int) {
        match *self {
            NamedPixelMapper::Mirror(_) => (w, h),
            NamedPixelMapper::Rotate(r) => rotate_size(r.angle as int, w, h),
            NamedPixelMapper::UArrange(_) => ufold_size(w, h),
        }
    }

    /// The visible points the coordinate mapping accepts on a `w` x `h`
    /// matrix: points within the strategy's visible size, and for the
    /// U-fold a height that covers the parallel chains, fits the doubled
    /// height, and keeps the folded-back bottom run within the first fold.
    pub open spec fn accepts(&self, w: int, h: int, x: int, y: int) -> bool {
        &&& x < self.spec_size(w, h).0
        &&& y < self.spec_size(w, h).1
        &&& match *self {
            NamedPixelMapper::Mirror(_) => true,
            NamedPixelMapper::Rotate(_) => true,
            NamedPixelMapper::UArrange(u) => {
                &&& u.parallel <= h
                &&& h <= usize::MAX as int / 2
                &&& (y % ufold_slab_height(u.parallel as int, h) >= ufold_panel_height(
                    u.parallel as int,
                    h,
                ) ==> y < ufold_slab_height(u.parallel as int, h))
            },
        }
    }

    /// Where the strategy sends the visible point `(x, y)`.
    pub open spec fn spec_map(&self, w: int, h: int, x: int, y: int) -> (int, int) {
        match *self {
            NamedPixelMapper::Mirror(m) => mirror_map(m.horizontal, w, h, x, y),
            NamedPixelMapper::Rotate(r) => rotate_map(r.angle as int, w, h, x, y),
            NamedPixelMapper::UArrange(u) => ufold_map(u.parallel as int, w, h, x, y),
        }
    }

    /// The visible size for the given matrix size.
    pub fn get_size_mapping(&self, matrix_width: usize, matrix_height: usize) -> (r: [usize; 2])
        requires
            self is UArrange ==> matrix_height <= usize::MAX / 2,
        ensures
            (r[0] as int, r[1] as int) == self.spec_size(matrix_width as int, matrix_height as int),
    {
        match self {
            NamedPixelMapper::Mirror(m) => m.get_size_mapping(matrix_width, matrix_height),
            NamedPixelMapper::Rotate(r) => r.get_size_mapping(matrix_width, matrix_height),
            NamedPixelMapper::UArrange(u) => u.get_size_mapping(matrix_width, matrix_height),
        }
    }

    /// Translates one visible coordinate to its matrix coordinate.  The
    /// point must lie within the size this strategy returns from
    /// `get_size_mapping` for the same matrix dimensions.
    pub fn map_visible_to_matrix(
        &self,
        matrix_width: usize,
        matrix_height: usize,
        visible_x: usize,
        visible_y: usize,
    ) -> (r: [usize; 2])
        requires
            self.wf(),
            self.accepts(
                matrix_width as int,
                matrix_height as int,
                visible_x as int,
                visible_y as int,
            ),
        ensures
            (r[0] as int, r[1] as int) == self.spec_map(
                matrix_width as int,
                matrix_height as int,
                visible_x as int,
                visible_y as int,
            ),
    {
        match self {
            NamedPixelMapper::Mirror(m) => m.map_visible_to_matrix(
                matrix_width,
                matrix_height,
                visible_x,
                visible_y,
            ),
            NamedPixelMapper::Rotate(r) => r.map_visible_to_matrix(
                matrix_width,
                matrix_height,
                visible_x,
                visible_y,
            ),
            NamedPixelMapper::UArrange(u) => u.map_visible_to_matrix(
                matrix_width,
                matrix_height,
                visible_x,
                visible_y,
            ),
        }
    }
}

/// Law: chaining a horizontal mirror and then a quarter turn.  The mirror,
/// named first, sits closest to the hardware and sees the true matrix size
/// `(w, h)`; the rotation maps from the chain's visible space `(h, w)`.  A
/// visible point travels through the rotation and then through the mirror,
/// and the two formulas compose to the single transform `(x, y) -> (y, x)`.
pub proof fn lemma_chain_mirror_then_rotate(w: int, h: int, x: int, y: int)
    requires
        0 <= x < h,
        0 <= y < w,
    ensures
        rotate_size(90, w, h) == (h, w),
        ({
            let p = rotate_map(90, w, h, x, y);
            mirror_map(true, w, h, p.0, p.1) == (y, x)
        }),
{
}

} // verus!
