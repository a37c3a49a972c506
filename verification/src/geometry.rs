use vstd::prelude::*;

verus! {

/// A rectangle in window coordinates, as Windows lays one out: `left` and
/// `top` inside it, `right` and `bottom` just outside.
#[derive(Clone, Copy, Debug, PartialEq, Eq, Structural)]
pub struct Rect {
    pub left: i32,
    pub top: i32,
    pub right: i32,
    pub bottom: i32,
}

/// A point in window coordinates.
#[derive(Clone, Copy, Debug, PartialEq, Eq, Structural)]
pub struct Point {
    pub x: i32,
    pub y: i32,
}

/// Whether an integer can be held in an `i32`.
pub open spec fn fits_i32(x: int) -> bool {
    i32::MIN <= x <= i32::MAX
}

/// Integer division rounding toward zero, as Rust's `/` on signed integers.
pub open spec fn tdiv(a: int, b: int) -> int
    recommends
        b > 0,
{
    if a >= 0 {
        a / b
    } else {
        -((-a) / b)
    }
}

/// `p` percent of `v`, rounded toward zero.
pub open spec fn percent_of(v: int, p: int) -> int {
    tdiv(v * p, 100)
}

/// The smaller of two integers.
pub open spec fn min_int(a: int, b: int) -> int {
    if a <= b {
        a
    } else {
        b
    }
}

/// The larger of two integers.
pub open spec fn max_int(a: int, b: int) -> int {
    if a >= b {
        a
    } else {
        b
    }
}

/// The smaller of two `i32` values.
pub fn min_i32(a: i32, b: i32) -> (m: i32)
    ensures
        m == min_int(a as int, b as int),
{
    if a <= b {
        a
    } else {
        b
    }
}

/// The larger of two `i32` values.
pub fn max_i32(a: i32, b: i32) -> (m: i32)
    ensures
        m == max_int(a as int, b as int),
{
    if a >= b {
        a
    } else {
        b
    }
}

/// The height in logical units of a font of `point_size` points on a device
/// of `dpi` dots per inch; negative, which asks Windows to match the
/// character height.
pub fn font_height(point_size: i32, dpi: i32) -> (height: i32)
    requires
        fits_i32(point_size * dpi),
    ensures
        height == -tdiv(point_size * dpi, 72),
{
    -(point_size * dpi / 72)
}

/// Whether a wide integer can be held in an `i32`.
pub fn fits_i32_wide(x: i128) -> (fits: bool)
    ensures
        fits == fits_i32(x as int),
{
    -2147483648i128 <= x && x <= 2147483647i128
}

/// Integer division of wide integers rounding toward zero, as `tdiv`.
pub fn tdiv_wide(a: i128, b: i128) -> (q: i128)
    requires
        b > 0,
        -0x1_0000_0000_0000_0000_0000 <= a <= 0x1_0000_0000_0000_0000_0000,
    ensures
        q == tdiv(a as int, b as int),
{
    a / b
}

/// A product of two numbers within `m` of zero is within `m * m` of zero.
pub proof fn lemma_product_bounded(a: int, b: int, m: int)
    by (nonlinear_arith)
    requires
        0 <= m,
        -m <= a <= m,
        -m <= b <= m,
    ensures
        -(m * m) <= a * b <= m * m,
{
}

/// Whether `font_height` can be computed for a point size and a resolution.
pub fn font_height_fits(point_size: i32, dpi: i32) -> (fits: bool)
    ensures
        fits == fits_i32(point_size * dpi),
{
    proof {
        lemma_product_bounded(point_size as int, dpi as int, 0x8000_0000);
    }
    fits_i32_wide((point_size as i128) * (dpi as i128))
}

} // verus!
