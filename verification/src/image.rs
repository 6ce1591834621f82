use vstd::prelude::*;

use crate::hashing::{hash_vec_of_vectors, spec_hash_pixels};
use crate::vector_bits::VectorBits;

verus! {

/// The pixel grid's dimensions.
#[derive(Clone, Copy, PartialEq, Eq, Structural, Debug)]
pub struct Resolution {
    pub height: usize,
    pub width: usize,
}

impl Resolution {
    /// The number of pixels, as a mathematical integer (so the spec can
    /// speak of it even when the product would not fit in `usize`).
    pub open spec fn spec_grid_size(self) -> int {
        self.width * self.height
    }

    /// A resolution the renderer accepts: both sides are at least one
    /// pixel, and the pixel count fits the machine's word so a buffer of
    /// that many pixels can be indexed.
    pub open spec fn is_valid(self) -> bool {
        &&& self.width >= 1
        &&& self.height >= 1
        &&& self.spec_grid_size() <= usize::MAX
    }

    pub fn new(width: usize, height: usize) -> (r: Resolution)
        ensures
            r == (Resolution { height, width }),
    {
        Resolution { height, width }
    }

    pub fn grid_size(&self) -> (n: usize)
        requires
            self.is_valid(),
        ensures
            n == self.spec_grid_size(),
    {
        self.width * self.height
    }
}

impl Default for Resolution {
    /// The renderer's default sensor grid: 300 rows at a 3:2 aspect ratio.
    fn default() -> (r: Resolution)
        ensures
            r == (Resolution { height: 300usize, width: 450usize }),
    {
        Resolution { height: 300, width: 300 * 3 / 2 }
    }
}

/// The column that pixel `index` of the row-major buffer lands in.
pub open spec fn spec_pixel_x(res: Resolution, index: int) -> int {
    index % res.width as int
}

/// The sensor row that pixel `index` lands in: the row order is
/// flipped, so the first buffer row is the top image row even though
/// the sensor's y axis points up.
pub open spec fn spec_pixel_y(res: Resolution, index: int) -> int {
    res.height - 1 - index / res.width as int
}

/// The buffer index of sensor coordinate `(x, y)`; the inverse of the
/// two maps above.
pub open spec fn spec_pixel_index(res: Resolution, x: int, y: int) -> int {
    (res.height - 1 - y) * res.width + x
}

/// Where pixel `index` of the row-major buffer lands on the sensor.
/// This is the one fixed index-to-coordinate convention; its inverse
/// is `pixel_index_of`.
pub fn pixel_coordinates(res: Resolution, index: usize) -> (xy: (usize, usize))
    requires
        res.is_valid(),
        index < res.spec_grid_size(),
    ensures
        xy.0 == spec_pixel_x(res, index as int),
        xy.1 == spec_pixel_y(res, index as int),
        xy.0 < res.width,
        xy.1 < res.height,
{
    let x = index % res.width;
    let y_flipped = index / res.width;
    proof {
        assert(index / res.width < res.height) by (nonlinear_arith)
            requires
                res.width >= 1,
                index < res.width * res.height,
        ;
    }
    (x, res.height - 1 - y_flipped)
}

/// The inverse of `pixel_coordinates`: the buffer index of sensor
/// coordinate `(x, y)`.
pub fn pixel_index_of(res: Resolution, x: usize, y: usize) -> (index: usize)
    requires
        res.is_valid(),
        x < res.width,
        y < res.height,
    ensures
        index == spec_pixel_index(res, x as int, y as int),
        index < res.spec_grid_size(),
{
    proof {
        assert((res.height - 1 - y) * res.width + x < res.width * res.height)
            by (nonlinear_arith)
            requires
                x < res.width,
                y < res.height,
        ;
    }
    (res.height - 1 - y) * res.width + x
}

/// The two maps above are inverse bijections between buffer indices
/// and sensor coordinates: going index -> (x, y) -> index is the
/// identity, and so is (x, y) -> index -> (x, y).
pub proof fn lemma_pixel_mapping_bijective(res: Resolution, index: usize, x: usize, y: usize)
    requires
        res.is_valid(),
        index < res.spec_grid_size(),
        x < res.width,
        y < res.height,
    ensures
        spec_pixel_index(res, spec_pixel_x(res, index as int), spec_pixel_y(res, index as int))
            == index,
        spec_pixel_x(res, spec_pixel_index(res, x as int, y as int)) == x,
        spec_pixel_y(res, spec_pixel_index(res, x as int, y as int)) == y,
{
    let w = res.width as int;
    let h = res.height as int;
    let i = index as int;
    assert(i / w < h && (i / w) * w + i % w == i) by (nonlinear_arith)
        requires
            w >= 1,
            0 <= i < w * h,
    ;
    assert(((h - 1 - y) * w + x) % w == x && ((h - 1 - y) * w + x) / w == h - 1 - y)
        by (nonlinear_arith)
        requires
            w >= 1,
            0 <= x < w,
            0 <= y < h,
    ;
}

/// The 2x2 sub-pixel cell that sample `s` of a pixel falls in:
/// column first (`s % 2`), then row (`s / 2 % 2`).
pub open spec fn spec_subpixel_cell(s: int) -> (int, int) {
    (s % 2, (s / 2) % 2)
}

/// The stratification cell of sample `s`: samples cycle through the
/// four cells of the 2x2 pattern, column first, then row.
pub fn subpixel_cell(s: usize) -> (cell: (usize, usize))
    ensures
        (cell.0 as int, cell.1 as int) == spec_subpixel_cell(s as int),
        cell.0 < 2,
        cell.1 < 2,
{
    (s % 2, (s / 2) % 2)
}

/// The stratification pattern covers the pixel evenly: every aligned
/// run of four samples visits each of the four sub-pixel cells exactly
/// once, and the pattern repeats with period four. A sample budget
/// that is a multiple of four therefore spends the same number of
/// samples on every cell.
pub proof fn lemma_stratification_covers_all_cells(s: int)
    requires
        s % 4 == 0,
        s >= 0,
    ensures
        spec_subpixel_cell(s) == (0int, 0int),
        spec_subpixel_cell(s + 1) == (1int, 0int),
        spec_subpixel_cell(s + 2) == (0int, 1int),
        spec_subpixel_cell(s + 3) == (1int, 1int),
        spec_subpixel_cell(s + 4) == spec_subpixel_cell(s),
{
    let q = s / 4;
    assert(s == 4 * q && s % 2 == 0 && (s + 1) % 2 == 1 && (s + 2) % 2 == 0 && (s + 3) % 2 == 1
        && s / 2 == 2 * q && (s + 1) / 2 == 2 * q && (s + 2) / 2 == 2 * q + 1 && (s + 3) / 2 == 2
        * q + 1 && (s + 4) % 2 == 0 && (s + 4) / 2 == 2 * q + 2) by (nonlinear_arith)
        requires
            s % 4 == 0,
            s >= 0,
            q == s / 4,
    ;
    assert((2 * q) % 2 == 0 && (2 * q + 1) % 2 == 1 && (2 * q + 2) % 2 == 0) by (nonlinear_arith)
        requires
            q >= 0,
    ;
}

/// A rendered (possibly still partial) image: a row-major pixel buffer
/// the size of its resolution's grid, stamped with the content hash
/// that lets a consumer detect change without a deep comparison.
#[derive(Clone, Debug)]
pub struct Image {
    pub pixels: Vec<VectorBits>,
    pub resolution: Resolution,
    pub hash: u64,
}

impl Image {
    /// An image is well formed when its buffer matches its grid and its
    /// stamp is the hash of its content.
    pub open spec fn is_well_formed(self) -> bool {
        &&& self.resolution.is_valid()
        &&& self.pixels@.len() == self.resolution.spec_grid_size()
        &&& self.hash == spec_hash_pixels(self.pixels@)
    }

    pub fn new(pixels: Vec<VectorBits>, resolution: Resolution) -> (img: Image)
        requires
            resolution.is_valid(),
            pixels@.len() == resolution.spec_grid_size(),
        ensures
            img.pixels@ == pixels@,
            img.resolution == resolution,
            img.hash == spec_hash_pixels(pixels@),
            img.is_well_formed(),
    {
        let hash = hash_vec_of_vectors(&pixels);
        Image { pixels, resolution, hash }
    }
}

} // verus!
