//! The U-fold strategy: a long horizontal panel chain folded into a
//! half-width, double-height block.
//!
//! Each group of panels driven by one data chain runs left-to-right along
//! the top half of its fold on the right half of the physical row, then
//! folds back and runs right-to-left along the bottom half with a mirrored
//! column index.  `parallel` such folds are stacked vertically.

use vstd::prelude::*;
use vstd::arithmetic::div_mod::{
    lemma_basic_div, lemma_fundamental_div_mod, lemma_mod_bound, lemma_multiply_divide_lt,
    lemma_small_mod,
};

verus! {

/// The visible size the U-fold exposes for a `w` x `h` matrix: panels fold
/// in pairs of 32-pixel-wide units anchored at 64-pixel boundaries, so the
/// visible width is `(w / 64) * 32`, and the fold doubles the height.
pub open spec fn ufold_size(w: int, h: int) -> (int, int) {
    ((w / 64) * 32, 2 * h)
}

/// The height of the stripe one data chain addresses: the physical height
/// split over the parallel chains, with truncating division.
pub open spec fn ufold_panel_height(parallel: int, h: int) -> int {
    h / parallel
}

/// The height of one U-shaped fold unit: a top run plus a folded-back
/// bottom run, each one panel height tall.
pub open spec fn ufold_slab_height(parallel: int, h: int) -> int {
    2 * (h / parallel)
}

/// Where the U-fold sends the visible point `(x, y)` on a `w` x `h` matrix.
/// `y / slab` selects the fold the point belongs to; within the fold, the
/// top half shifts the column into the right half of the physical row, the
/// bottom half mirrors both the column and the row.
pub open spec fn ufold_map(parallel: int, w: int, h: int, x: int, y: int) -> (int, int) {
    let panel = ufold_panel_height(parallel, h);
    let slab = ufold_slab_height(parallel, h);
    let base_y = (y / slab) * panel;
    let local_y = y % slab;
    if local_y < panel {
        (x + w / 2, base_y + local_y)
    } else {
        (ufold_size(w, h).0 - x - 1, base_y + (slab - y - 1))
    }
}

/// The reason a U-fold construction is rejected: a chain this short or an
/// odd chain cannot fold into a U shape, a physically meaningless
/// configuration that must stop session setup.
#[derive(Debug, Clone, Copy, PartialEq, Eq, Structural)]
pub enum UFoldConfigError {
    /// The chain has fewer than two panels, too short to fold.
    ChainTooShort,
    /// The chain has an odd number of panels and cannot fold in half.
    ChainNotEven,
}

impl UFoldConfigError {
    /// A descriptive message for the configuration error.
    pub fn message(&self) -> (r: &'static str)
        ensures
            *self is ChainTooShort ==> r@ == "U-mapper: need at least '--chain_length 4' for useful folding"@,
            *self is ChainNotEven ==> r@ == "U-mapper: Chain (--chain_length) needs to be divisible by two"@,
    {
        match self {
            UFoldConfigError::ChainTooShort => {
                "U-mapper: need at least '--chain_length 4' for useful folding"
            },
            UFoldConfigError::ChainNotEven => {
                "U-mapper: Chain (--chain_length) needs to be divisible by two"
            },
        }
    }
}

/// Folds one long panel chain into a U shape, halving the visible width and
/// doubling the visible height.
#[derive(Debug, Clone, Copy, PartialEq, Eq, Structural)]
pub struct UArrangeMapper {
    /// The number of independent data chains stacked vertically.
    pub parallel: usize,
}

impl UArrangeMapper {
    /// The geometry the strategy is defined for: at least one data chain.
    pub open spec fn wf(&self) -> bool {
        self.parallel >= 1
    }

    /// Validates the physical chain geometry and constructs the strategy.
    /// A chain of fewer than two panels, or an odd chain, cannot fold into a
    /// U shape and is rejected.
    pub fn new_with_parameters(chain: usize, parallel: usize) -> (r: Result<Self, UFoldConfigError>)
        requires
            parallel >= 1,
        ensures
            match r {
                Ok(m) => chain >= 2 && chain % 2 == 0 && m.parallel == parallel && m.wf(),
                Err(e) => (e is ChainTooShort && chain < 2) || (e is ChainNotEven && chain >= 2
                    && chain % 2 != 0),
            },
    {
        if chain < 2 {
            // technically, a chain of 2 would work, but somewhat pointless
            Err(UFoldConfigError::ChainTooShort)
        } else if chain % 2 != 0 {
            Err(UFoldConfigError::ChainNotEven)
        } else {
            Ok(UArrangeMapper { parallel })
        }
    }

    /// The soft diagnostic of the size mapping: the configured parallel
    /// count does not evenly partition the physical height, so the display
    /// geometry will be imperfect.  The mapping still proceeds with
    /// truncating division; the caller may surface this as a warning.
    pub fn height_unevenly_split(&self, matrix_height: usize) -> (r: bool)
        requires
            self.wf(),
        ensures
            r == (matrix_height as int % self.parallel as int != 0),
    {
        matrix_height % self.parallel != 0
    }

    /// The visible size: width `(matrix_width / 64) * 32`, height doubled.
    pub fn get_size_mapping(&self, matrix_width: usize, matrix_height: usize) -> (r: [usize; 2])
        requires
            matrix_height <= usize::MAX / 2,
        ensures
            (r[0] as int, r[1] as int) == ufold_size(matrix_width as int, matrix_height as int),
    {
        let visible_width = (matrix_width / 64) * 32;  // Div at 32px boundary
        let visible_height = 2 * matrix_height;
        [visible_width, visible_height]
    }

    /// Translates a visible coordinate to the folded matrix coordinate.
    /// The visible point must lie within the size this strategy returns from
    /// `get_size_mapping` for the same matrix dimensions, the height must
    /// cover the parallel chains, and a point on the folded-back bottom run
    /// must lie within the first fold unit, as the mirrored row formula
    /// `slab_height - y - 1` demands.
    pub fn map_visible_to_matrix(
        &self,
        matrix_width: usize,
        matrix_height: usize,
        x: usize,
        y: usize,
    ) -> (r: [usize; 2])
        requires
            self.wf(),
            self.parallel <= matrix_height,
            matrix_height <= usize::MAX / 2,
            (x as int) < ufold_size(matrix_width as int, matrix_height as int).0,
            (y as int) < ufold_size(matrix_width as int, matrix_height as int).1,
            y as int % ufold_slab_height(self.parallel as int, matrix_height as int)
                >= ufold_panel_height(self.parallel as int, matrix_height as int)
                ==> (y as int) < ufold_slab_height(self.parallel as int, matrix_height as int),
        ensures
            (r[0] as int, r[1] as int) == ufold_map(
                self.parallel as int,
                matrix_width as int,
                matrix_height as int,
                x as int,
                y as int,
            ),
            r[0] < matrix_width,
            matrix_height as int % self.parallel as int == 0 ==> r[1] < matrix_height,
    {
        proof {
            lemma_ufold_geometry(
                self.parallel as int,
                matrix_width as int,
                matrix_height as int,
                x as int,
                y as int,
            );
        }
        let panel_height = matrix_height / self.parallel;
        let visible_width = (matrix_width / 64) * 32;
        let slab_height = 2 * panel_height;  // one folded u-shape
        let base_y = (y / slab_height) * panel_height;

        let mut matrix_x = x;
        let mut matrix_y = y % slab_height;

        if matrix_y < panel_height {
            matrix_x += matrix_width / 2;
        } else {
            matrix_x = visible_width - x - 1;
            matrix_y = slab_height - y - 1;
        }

        [matrix_x, base_y + matrix_y]
    }
}

/// The arithmetic facts behind the U-fold coordinate mapping: the shifted
/// column stays within the physical width, the fold base plus the local row
/// stays within the physical height whenever the parallel count divides it,
/// and none of the executable arithmetic can wrap.
proof fn lemma_ufold_geometry(parallel: int, w: int, h: int, x: int, y: int)
    requires
        1 <= parallel <= h,
        0 <= x < ufold_size(w, h).0,
        0 <= y < ufold_size(w, h).1,
        y % ufold_slab_height(parallel, h) >= ufold_panel_height(parallel, h) ==> y
            < ufold_slab_height(parallel, h),
    ensures
        1 <= ufold_panel_height(parallel, h) <= h,
        (y / ufold_slab_height(parallel, h)) * ufold_panel_height(parallel, h) + (y
            % ufold_slab_height(parallel, h)) <= y,
        x + w / 2 < w,
        y % ufold_slab_height(parallel, h) >= ufold_panel_height(parallel, h) ==> y
            < ufold_slab_height(parallel, h) && y / ufold_slab_height(parallel, h) == 0
            && ufold_slab_height(parallel, h) - y - 1 < ufold_panel_height(parallel, h),
        h % parallel == 0 ==> ufold_map(parallel, w, h, x, y).1 < h,
{
    let panel = ufold_panel_height(parallel, h);
    let slab = ufold_slab_height(parallel, h);
    assert(panel >= 1) by {
        lemma_fundamental_div_mod(h, parallel);
        lemma_mod_bound(h, parallel);
        if panel <= 0 {
            assert(h == parallel * (h / parallel) + h % parallel);
            assert(parallel * (h / parallel) <= 0) by (nonlinear_arith)
                requires
                    parallel >= 1,
                    h / parallel <= 0,
            ;
        }
    }
    assert(panel <= h) by {
        lemma_fundamental_div_mod(h, parallel);
        lemma_mod_bound(h, parallel);
        assert(parallel * panel <= h);
        assert(panel <= parallel * panel) by (nonlinear_arith)
            requires
                parallel >= 1,
                panel >= 0,
        ;
    }
    assert(slab >= 2);
    lemma_fundamental_div_mod(y, slab);
    lemma_mod_bound(y, slab);
    let q = y / slab;
    let m = y % slab;
    assert(q >= 0) by (nonlinear_arith)
        requires
            slab >= 1,
            y >= 0,
            y == slab * q + m,
            0 <= m < slab,
    ;
    assert(q * panel + m <= y) by (nonlinear_arith)
        requires
            slab == 2 * panel,
            panel >= 1,
            q >= 0,
            y == slab * q + m,
            0 <= m,
    ;
    // The shifted column stays in the right half of the physical row.
    assert(x + w / 2 < w) by {
        assert((w / 64) * 32 * 2 <= (w / 64) * 64);
        lemma_fundamental_div_mod(w, 64);
        lemma_mod_bound(w, 64);
        assert((w / 64) * 64 <= w);
        assert(w / 2 * 2 <= w) by {
            lemma_fundamental_div_mod(w, 2);
            lemma_mod_bound(w, 2);
        }
        assert(x * 2 + 2 <= (w / 64) * 64);
    }
    if m >= panel {
        // Bottom run: the fold stays within the first slab, and the mirrored
        // row index lands on the top panel rows.
        assert(y < slab);
        lemma_basic_div(y, slab);
        assert(q == 0);
        lemma_small_mod(y as nat, slab as nat);
        assert(m == y);
        assert(slab - y - 1 < panel);
    }
    if h % parallel == 0 {
        lemma_fundamental_div_mod(h, parallel);
        assert(h == parallel * panel);
        if m < panel {
            // Top run: y below parallel * slab bounds the fold index.
            assert(y < slab * parallel) by (nonlinear_arith)
                requires
                    y < 2 * h,
                    h == parallel * panel,
                    slab == 2 * panel,
            ;
            lemma_multiply_divide_lt(y, slab, parallel);
            assert(q <= parallel - 1);
            assert(q * panel + m < parallel * panel) by (nonlinear_arith)
                requires
                    q <= parallel - 1,
                    0 <= m < panel,
                    q >= 0,
                    panel >= 1,
            ;
        } else {
            assert(slab - y - 1 < panel);
        }
    }
}

} // verus!
