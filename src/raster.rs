//! Image dimensions and the raster order in which pixels are written:
//! row-major, rows top to bottom, columns left to right.
use vstd::prelude::*;

verus! {

/// The pixel grid of a rendered image.
#[derive(Clone, Copy, Debug, PartialEq, Eq, Structural)]
pub struct Raster {
    pub width: u32,
    pub height: u32,
}

/// Position in raster order of the pixel in column `i` of row `j`.
pub open spec fn raster_index(width: nat, i: nat, j: nat) -> nat {
    j * width + i
}

impl Raster {
    /// At least one row: the invariant of every grid this module builds.
    pub open spec fn wf(self) -> bool {
        self.height >= 1
    }

    pub open spec fn count(self) -> nat {
        self.width as nat * self.height as nat
    }

    /// The grid of a camera configured with `image_width` columns, whose row
    /// count derived from the aspect ratio is `derived_height`: a negative
    /// width leaves no column, and the height is floored to one row.
    pub fn new(image_width: i32, derived_height: i32) -> (r: Raster)
        ensures
            r.width == (if image_width < 0 {
                0
            } else {
                image_width as int
            }),
            r.height == (if derived_height < 1 {
                1
            } else {
                derived_height as int
            }),
            r.wf(),
    {
        let width: u32 = if image_width < 0 {
            0
        } else {
            image_width as u32
        };
        let height: u32 = if derived_height < 1 {
            1
        } else {
            derived_height as u32
        };
        Raster { width, height }
    }

    /// Number of pixels.
    pub fn pixel_count(&self) -> (r: u64)
        ensures
            r == self.count(),
    {
        proof {
            assert(self.width as nat * self.height as nat <= u32::MAX as nat * u32::MAX as nat)
                by (nonlinear_arith);
        }
        self.width as u64 * self.height as u64
    }

    /// Position in raster order of the pixel in column `i` of row `j`.
    pub fn index_of(&self, i: u32, j: u32) -> (r: u64)
        requires
            i < self.width,
            j < self.height,
        ensures
            r == raster_index(self.width as nat, i as nat, j as nat),
            r < self.count(),
    {
        proof {
            let w = self.width as nat;
            let h = self.height as nat;
            assert(j as nat * w + i < h * w) by (nonlinear_arith)
                requires
                    j < h,
                    i < w,
            ;
            assert(h * w == w * h) by (nonlinear_arith);
            assert(h * w <= u32::MAX as nat * u32::MAX as nat) by (nonlinear_arith)
                requires
                    w <= u32::MAX,
                    h <= u32::MAX,
            ;
        }
        j as u64 * self.width as u64 + i as u64
    }

    /// Column and row of the pixel at position `k` in raster order.
    pub fn pixel_at(&self, k: u64) -> (r: (u32, u32))
        requires
            k < self.count(),
        ensures
            r.0 < self.width,
            r.1 < self.height,
            raster_index(self.width as nat, r.0 as nat, r.1 as nat) == k,
    {
        let w = self.width as u64;
        proof {
            if w == 0 {
                assert(self.width as nat * self.height as nat == 0) by (nonlinear_arith)
                    requires
                        self.width == 0,
                ;
            }
        }
        let i = k % w;
        let j = k / w;
        proof {
            let h = self.height as nat;
            assert(k == j * w + i) by (nonlinear_arith)
                requires
                    w > 0,
                    i == k % w,
                    j == k / w,
            ;
            assert(j < h) by (nonlinear_arith)
                requires
                    k < w * h,
                    k == j * w + i,
                    i >= 0,
                    w > 0,
            ;
        }
        (i as u32, j as u32)
    }
}

/// Raster order is row-major: a pixel comes before another exactly when its
/// row is higher up, or it is further left in the same row; and each
/// position belongs to a single pixel.
pub proof fn lemma_raster_order(width: nat, i1: nat, j1: nat, i2: nat, j2: nat)
    requires
        i1 < width,
        i2 < width,
    ensures
        raster_index(width, i1, j1) < raster_index(width, i2, j2) <==> (j1 < j2 || (j1 == j2
            && i1 < i2)),
        raster_index(width, i1, j1) == raster_index(width, i2, j2) <==> (i1 == i2 && j1 == j2),
{
    if j1 < j2 {
        assert(j1 * width + width <= j2 * width) by (nonlinear_arith)
            requires
                j1 < j2,
        ;
    } else if j2 < j1 {
        assert(j2 * width + width <= j1 * width) by (nonlinear_arith)
            requires
                j2 < j1,
        ;
    }
}

} // verus!
