use vstd::prelude::*;
use crate::escape::in_coord_range;

verus! {

/// A rectangle of the complex plane in fixed-point coordinates.
#[derive(Clone, Copy, Debug, PartialEq, Eq, Structural)]
pub struct Region {
    pub x_min: i64,
    pub x_max: i64,
    pub y_min: i64,
    pub y_max: i64,
}

impl Region {
    /// Bounds within the coordinate range, minimum strictly below maximum on both axes.
    pub open spec fn valid(self) -> bool {
        &&& in_coord_range(self.x_min as int)
        &&& in_coord_range(self.x_max as int)
        &&& in_coord_range(self.y_min as int)
        &&& in_coord_range(self.y_max as int)
        &&& self.x_min < self.x_max
        &&& self.y_min < self.y_max
    }

    pub fn is_valid(&self) -> (r: bool)
        ensures
            r == self.valid(),
    {
        let lim: i64 = crate::escape::COORD_LIMIT;
        -lim <= self.x_min && self.x_min <= lim && -lim <= self.x_max && self.x_max <= lim
            && -lim <= self.y_min && self.y_min <= lim && -lim <= self.y_max && self.y_max <= lim
            && self.x_min < self.x_max && self.y_min < self.y_max
    }
}

/// The region `[-2.5, 1] x [-1, 1]`, which holds the whole set.
pub open spec fn default_region_spec() -> Region {
    Region {
        x_min: -703687441776640i64,
        x_max: 281474976710656i64,
        y_min: -281474976710656i64,
        y_max: 281474976710656i64,
    }
}

/// The region `[-2.5, 1] x [-1, 1]`, which holds the whole set.
pub fn default_region() -> (r: Region)
    ensures
        r == default_region_spec(),
        r.valid(),
{
    Region { x_min: -703687441776640, x_max: 281474976710656, y_min: -281474976710656, y_max: 281474976710656 }
}

/// The pixel grid sampled over a region: `width` columns and `height` rows.
#[derive(Clone, Copy, Debug, PartialEq, Eq, Structural)]
pub struct Resolution {
    pub width: u32,
    pub height: u32,
}

impl Resolution {
    pub open spec fn pixel_count(self) -> nat {
        (self.width * self.height) as nat
    }

    /// Either both dimensions are zero (an empty grid) or neither is,
    /// and the number of pixels fits in `usize`.
    pub open spec fn valid(self) -> bool {
        &&& (self.width == 0) == (self.height == 0)
        &&& self.pixel_count() <= usize::MAX
    }

    pub fn is_valid(&self) -> (r: bool)
        ensures
            r == self.valid(),
    {
        proof {
            vstd::arithmetic::mul::lemma_mul_upper_bound(
                self.width as int,
                u32::MAX as int,
                self.height as int,
                u32::MAX as int,
            );
        }
        let n: u64 = (self.width as u64) * (self.height as u64);
        (self.width == 0) == (self.height == 0) && n <= usize::MAX as u64
    }

    /// The number of pixels, `width * height`.
    pub fn pixel_count_exec(&self) -> (r: usize)
        requires
            self.valid(),
        ensures
            r == self.pixel_count(),
    {
        let n: u64 = (self.width as u64) * (self.height as u64);
        n as usize
    }
}

/// Column of the pixel with row-major flat index `k`.
pub open spec fn pixel_x(res: Resolution, k: int) -> int {
    k % (res.width as int)
}

/// Row of the pixel with row-major flat index `k`.
pub open spec fn pixel_y(res: Resolution, k: int) -> int {
    k / (res.width as int)
}

/// The coordinate of grid line `i` of `steps` equal steps from `lo` toward `hi`.
pub open spec fn axis_coord(lo: int, hi: int, steps: int, i: int) -> int {
    lo + (hi - lo) * i / steps
}

/// Real part of the point sampled at column `px`.
pub open spec fn point_re(region: Region, res: Resolution, px: int) -> int {
    axis_coord(region.x_min as int, region.x_max as int, res.width as int, px)
}

/// Imaginary part of the point sampled at row `py`.
pub open spec fn point_im(region: Region, res: Resolution, py: int) -> int {
    axis_coord(region.y_min as int, region.y_max as int, res.height as int, py)
}

/// A pixel of the grid together with the complex point it samples.
#[derive(Clone, Copy, Debug, PartialEq, Eq, Structural)]
pub struct SamplePoint {
    pub px: u32,
    pub py: u32,
    pub re: i64,
    pub im: i64,
}

fn axis_coord_exec(lo: i64, hi: i64, steps: u32, i: u32) -> (r: i64)
    requires
        in_coord_range(lo as int),
        in_coord_range(hi as int),
        lo < hi,
        i < steps,
    ensures
        r == axis_coord(lo as int, hi as int, steps as int, i as int),
        lo <= r < hi,
{
    let span: u128 = (hi - lo) as u128;
    proof {
        assert(span * i <= span * steps) by (nonlinear_arith)
            requires
                i < steps,
                span > 0,
        ;
        vstd::arithmetic::mul::lemma_mul_strict_inequality(i as int, steps as int, span as int);
        vstd::arithmetic::mul::lemma_mul_is_commutative(span as int, steps as int);
        vstd::arithmetic::mul::lemma_mul_is_commutative(span as int, i as int);
        vstd::arithmetic::div_mod::lemma_multiply_divide_lt(span * i, steps as int, span as int);
        assert(span <= 0x2000000000000000);
        vstd::arithmetic::mul::lemma_mul_upper_bound(
            span as int,
            0x2000000000000000,
            i as int,
            0x100000000,
        );
    }
    let off: u128 = span * (i as u128) / (steps as u128);
    lo + off as i64
}

/// The sample point of the pixel with row-major flat index `k`: column
/// `k % width`, row `k / width`, and the complex point
/// `(x_min + (x_max - x_min) * px / width, y_min + (y_max - y_min) * py / height)`.
pub fn sample_point(region: &Region, res: &Resolution, k: usize) -> (p: SamplePoint)
    requires
        region.valid(),
        res.valid(),
        k < res.pixel_count(),
    ensures
        p.px == pixel_x(*res, k as int),
        p.py == pixel_y(*res, k as int),
        p.re == point_re(*region, *res, p.px as int),
        p.im == point_im(*region, *res, p.py as int),
        in_coord_range(p.re as int),
        in_coord_range(p.im as int),
{
    proof {
        lemma_pixel_in_grid(*res, k as int);
    }
    let w: usize = res.width as usize;
    let px: u32 = (k % w) as u32;
    let py: u32 = (k / w) as u32;
    let re = axis_coord_exec(region.x_min, region.x_max, res.width, px);
    let im = axis_coord_exec(region.y_min, region.y_max, res.height, py);
    SamplePoint { px, py, re, im }
}

/// The flat index `k` of a pixel of the grid names a column below `width`
/// and a row below `height`.
pub proof fn lemma_pixel_in_grid(res: Resolution, k: int)
    requires
        0 <= k < res.pixel_count(),
    ensures
        0 <= pixel_x(res, k) < res.width,
        0 <= pixel_y(res, k) < res.height,
{
    let w = res.width as int;
    let h = res.height as int;
    if w == 0 {
        assert(w * h == 0);
    }
    assert(w > 0);
    vstd::arithmetic::div_mod::lemma_multiply_divide_lt(k, w, h);
    vstd::arithmetic::div_mod::lemma_div_pos_is_pos(k, w);
}

} // verus!
