use vstd::prelude::*;

verus! {

/// An exact fraction `num / den`. A zero denominator is carried as it is
/// and denotes no number.
#[derive(Clone, Copy, Debug, PartialEq, Eq)]
pub struct Ratio {
    pub num: i64,
    pub den: i64,
}

/// A four by four matrix in column-major order: `columns[c][r]` is the
/// entry in column `c`, row `r`.
#[derive(Clone, Copy, Debug, PartialEq, Eq)]
pub struct Matrix4 {
    pub columns: [[Ratio; 4]; 4],
}

/// The fraction `num / den`, for a numerator and a denominator that an `i64`
/// holds.
pub open spec fn fraction(num: int, den: int) -> Ratio {
    Ratio { num: num as i64, den: den as i64 }
}

/// The projection that takes pixel space, with its origin in the top left
/// corner and `width` by `height` pixels, to normalized device coordinates:
/// its columns are `(2 / width, 0, 0, 0)`, `(0, -2 / height, 0, 0)`,
/// `(0, 0, -1, 0)` and `(-1, 1, 0, 1)`.
pub open spec fn orthographic_matrix(width: u32, height: u32) -> Matrix4 {
    Matrix4 {
        columns: [
            [fraction(2, width as int), fraction(0, 1), fraction(0, 1), fraction(0, 1)],
            [fraction(0, 1), fraction(-2, height as int), fraction(0, 1), fraction(0, 1)],
            [fraction(0, 1), fraction(0, 1), fraction(-1, 1), fraction(0, 1)],
            [fraction(-1, 1), fraction(1, 1), fraction(0, 1), fraction(1, 1)],
        ],
    }
}

/// Makes the projection of a viewport of `width` by `height` pixels. Each
/// entry is an exact fraction; where the viewport is empty, the entries that
/// divide by its width or height have a zero denominator.
pub fn orthographic(width: u32, height: u32) -> (m: Matrix4)
    ensures
        m == orthographic_matrix(width, height),
{
    let zero = Ratio { num: 0, den: 1 };
    let one = Ratio { num: 1, den: 1 };
    let minus_one = Ratio { num: -1, den: 1 };
    Matrix4 {
        columns: [
            [Ratio { num: 2, den: width as i64 }, zero, zero, zero],
            [zero, Ratio { num: -2, den: height as i64 }, zero, zero],
            [zero, zero, minus_one, zero],
            [minus_one, one, zero, one],
        ],
    }
}

impl Ratio {
    /// The numerator of this fraction times `v`, brought to the common
    /// denominator `a.den * b.den * c.den * self.den` of four fractions.
    pub open spec fn term(self, v: int, a: Ratio, b: Ratio, c: Ratio) -> int {
        self.num * v * (a.den * b.den * c.den)
    }
}

impl Matrix4 {
    /// Whether row `r` of this matrix, applied to the column vector
    /// `(x, y, z, w)`, gives exactly the whole number `d`. The sum of the four
    /// fractions is compared over their common denominator, so that nothing
    /// is rounded.
    pub open spec fn row_gives(self, r: int, x: int, y: int, z: int, w: int, d: int) -> bool {
        let a = self.columns[0][r];
        let b = self.columns[1][r];
        let c = self.columns[2][r];
        let e = self.columns[3][r];
        &&& a.den != 0 && b.den != 0 && c.den != 0 && e.den != 0
        &&& a.term(x, b, c, e) + b.term(y, a, c, e) + c.term(z, a, b, e) + e.term(w, a, b, c)
            == d * (a.den * b.den * c.den * e.den)
    }

    /// Whether this matrix takes the pixel `(x, y)`, read as the point
    /// `(x, y, 0, 1)`, to the device coordinate `(dx, dy)`, read as
    /// `(dx, dy, 0, 1)`.
    pub open spec fn maps(self, x: int, y: int, dx: int, dy: int) -> bool {
        &&& self.row_gives(0, x, y, 0, 1, dx)
        &&& self.row_gives(1, x, y, 0, 1, dy)
        &&& self.row_gives(2, x, y, 0, 1, 0)
        &&& self.row_gives(3, x, y, 0, 1, 1)
    }
}

/// The projection of a viewport that is not empty takes the pixel `(x, y)`
/// to the device coordinate `(dx, dy)` exactly where `dx` is `2 x / width - 1`
/// and `dy` is `1 - 2 y / height`: the width of the viewport is laid over
/// the range from -1 to 1, and its height over the range from 1 down to -1.
pub proof fn orthographic_maps_pixels(width: u32, height: u32, x: int, y: int, dx: int, dy: int)
    requires
        width > 0,
        height > 0,
    ensures
        orthographic_matrix(width, height).maps(x, y, dx, dy) <==> 2 * x == (dx + 1) * width && 2
            * y == (1 - dy) * height,
{
    let w = width as int;
    let h = height as int;
    assert(2 * x * (1 * 1 * 1) + 0 * y * (w * 1 * 1) + 0 * 0 * (w * 1 * 1) + (-1) * 1 * (w * 1 * 1)
        == 2 * x - w) by (nonlinear_arith);
    assert(dx * (w * 1 * 1 * 1) == dx * w) by (nonlinear_arith);
    assert((dx + 1) * w == dx * w + w) by (nonlinear_arith);
    assert(0 * x * (h * 1 * 1) + (-2) * y * (1 * 1 * 1) + 0 * 0 * (1 * h * 1) + 1 * 1 * (1 * h * 1)
        == h - 2 * y) by (nonlinear_arith);
    assert(dy * (1 * h * 1 * 1) == dy * h) by (nonlinear_arith);
    assert((1 - dy) * h == h - dy * h) by (nonlinear_arith);
    assert(0 * x * (1 * 1 * 1) + 0 * y * (1 * 1 * 1) + (-1) * 0 * (1 * 1 * 1) + 0 * 1 * (1 * 1 * 1)
        == 0 * (1 * 1 * 1 * 1)) by (nonlinear_arith);
    assert(0 * x * (1 * 1 * 1) + 0 * y * (1 * 1 * 1) + 0 * 0 * (1 * 1 * 1) + 1 * 1 * (1 * 1 * 1)
        == 1 * (1 * 1 * 1 * 1)) by (nonlinear_arith);
}

/// The projection of a viewport that is not empty takes its top left pixel
/// corner `(0, 0)` to the device coordinate `(-1, 1)` and its bottom right
/// corner `(width, height)` to `(1, -1)`: the vertical axis is flipped.
pub proof fn orthographic_maps_corners(width: u32, height: u32)
    requires
        width > 0,
        height > 0,
    ensures
        orthographic_matrix(width, height).maps(0, 0, -1, 1),
        orthographic_matrix(width, height).maps(width as int, height as int, 1, -1),
{
    orthographic_maps_pixels(width, height, 0, 0, -1, 1);
    orthographic_maps_pixels(width, height, width as int, height as int, 1, -1);
    assert((1 + 1) * width == 2 * width) by (nonlinear_arith);
    assert((1 - (-1)) * height == 2 * height) by (nonlinear_arith);
}

} // verus!
