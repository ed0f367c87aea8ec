use vstd::prelude::*;

verus! {

/// An 8-bit-per-channel colour.
#[derive(Clone, Copy, Debug, PartialEq, Eq, Structural)]
pub struct Rgb {
    pub r: u8,
    pub g: u8,
    pub b: u8,
}

/// The colour of points that did not escape.
pub open spec fn black() -> Rgb {
    Rgb { r: 0, g: 0, b: 0 }
}

impl Rgb {
    /// The colour of points that did not escape.
    pub fn black() -> (r: Rgb)
        ensures
            r == black(),
    {
        Rgb { r: 0, g: 0, b: 0 }
    }
}

/// Resolution of the ramp parameter: `t` runs over `[0, RAMP_ONE)` for `[0, 1)`.
pub const RAMP_ONE: u64 = 65536;

pub open spec fn ramp_one_pow4() -> int {
    RAMP_ONE * RAMP_ONE * RAMP_ONE * RAMP_ONE
}

/// `count / cap` on the ramp's fixed-point scale, rounded down.
pub open spec fn ramp_t(count: int, cap: int) -> int {
    count * RAMP_ONE / cap
}

/// `9 (1 - t) t^3`, scaled to `[0, 255]` and rounded down.
pub open spec fn red_level(t: int) -> int {
    (9 * 255) * ((RAMP_ONE - t) * t * t * t) / ramp_one_pow4()
}

/// `15 (1 - t)^2 t^2`, scaled to `[0, 255]` and rounded down.
pub open spec fn green_level(t: int) -> int {
    (15 * 255) * ((RAMP_ONE - t) * (RAMP_ONE - t) * t * t) / ramp_one_pow4()
}

/// `8.5 (1 - t)^3 t`, scaled to `[0, 255]` and rounded down.
pub open spec fn blue_level(t: int) -> int {
    (17 * 255) * ((RAMP_ONE - t) * (RAMP_ONE - t) * (RAMP_ONE - t) * t) / (2 * ramp_one_pow4())
}

/// Blue level at the start of the ramp: escaped points are never black.
pub const BLUE_BASE: u8 = 32;

/// A level clamped to the largest channel value.
pub open spec fn channel(v: int) -> u8 {
    if v > 255 { 255 } else { v as u8 }
}

/// Black for a count at or above the cap (the point did not escape);
/// otherwise the polynomial ramp at `t = count / cap`, whose blue channel
/// starts from `BLUE_BASE`, so that the ramp begins at a dark blue.
pub open spec fn color_of(count: int, cap: int) -> Rgb {
    if count >= cap {
        black()
    } else {
        let t = ramp_t(count, cap);
        Rgb { r: channel(red_level(t)), g: channel(green_level(t)), b: channel(BLUE_BASE + blue_level(t)) }
    }
}

/// Bounds on the partial products of four factors of at most `RAMP_ONE`.
proof fn lemma_product4_bound(a: int, b: int, c: int, d: int)
    requires
        0 <= a <= RAMP_ONE,
        0 <= b <= RAMP_ONE,
        0 <= c <= RAMP_ONE,
        0 <= d <= RAMP_ONE,
    ensures
        0 <= a * b <= 0x100000000,
        0 <= a * b * c <= 0x1000000000000,
        0 <= a * b * c * d <= 0x10000000000000000,
{
    vstd::arithmetic::mul::lemma_mul_upper_bound(a, 0x10000, b, 0x10000);
    vstd::arithmetic::mul::lemma_mul_nonnegative(a, b);
    vstd::arithmetic::mul::lemma_mul_upper_bound(a * b, 0x100000000, c, 0x10000);
    vstd::arithmetic::mul::lemma_mul_nonnegative(a * b, c);
    vstd::arithmetic::mul::lemma_mul_upper_bound(a * b * c, 0x1000000000000, d, 0x10000);
    vstd::arithmetic::mul::lemma_mul_nonnegative(a * b * c, d);
}

fn clamp_channel(v: u128) -> (r: u8)
    ensures
        r == channel(v as int),
{
    if v > 255 {
        255
    } else {
        v as u8
    }
}

/// The colour of an escape time: black when `count >= cap` (the sentinel of
/// a point that did not escape), else three cubic ramps in `t = count / cap`
/// with coefficients 9, 15 and 8.5, blue raised by `BLUE_BASE`, each clamped
/// to `[0, 255]`. Only the sentinel is black.
pub fn color_from_iteration(count: u32, cap: u32) -> (r: Rgb)
    ensures
        r == color_of(count as int, cap as int),
        count == cap ==> r == black(),
        count < cap ==> r != black(),
        count == 0 && cap > 0 ==> r != black(),
{
    if count >= cap {
        return Rgb::black();
    }
    let one: u64 = RAMP_ONE;
    proof {
        vstd::arithmetic::mul::lemma_mul_strict_inequality(count as int, cap as int, RAMP_ONE as int);
        vstd::arithmetic::mul::lemma_mul_is_commutative(cap as int, RAMP_ONE as int);
        vstd::arithmetic::div_mod::lemma_multiply_divide_lt(
            count * RAMP_ONE,
            cap as int,
            RAMP_ONE as int,
        );
        vstd::arithmetic::div_mod::lemma_div_pos_is_pos(count * RAMP_ONE, cap as int);
    }
    let t: u128 = ((count as u64) * one / (cap as u64)) as u128;
    let u: u128 = (one as u128) - t;
    let q4: u128 = 0x10000000000000000;
    proof {
        assert(q4 == ramp_one_pow4());
        lemma_product4_bound(u as int, t as int, t as int, t as int);
        lemma_product4_bound(u as int, u as int, t as int, t as int);
        lemma_product4_bound(u as int, u as int, u as int, t as int);
    }
    let red: u128 = (9 * 255) * (u * t * t * t) / q4;
    let green: u128 = (15 * 255) * (u * u * t * t) / q4;
    let blue: u128 = (BLUE_BASE as u128) + (17 * 255) * (u * u * u * t) / (2 * q4);
    proof {
        lemma_escaped_not_black(count, cap);
    }
    Rgb { r: clamp_channel(red), g: clamp_channel(green), b: clamp_channel(blue) }
}

/// Every escape time below the cap, the start of the ramp included, is
/// shown in a colour other than black.
pub proof fn lemma_escaped_not_black(count: u32, cap: u32)
    requires
        count < cap,
    ensures
        color_of(count as int, cap as int) != black(),
{
    let t = ramp_t(count as int, cap as int);
    assert(count * RAMP_ONE >= 0) by (nonlinear_arith)
        requires
            count >= 0,
    ;
    vstd::arithmetic::div_mod::lemma_div_pos_is_pos(count * RAMP_ONE, cap as int);
    vstd::arithmetic::mul::lemma_mul_strict_inequality(count as int, cap as int, RAMP_ONE as int);
    vstd::arithmetic::mul::lemma_mul_is_commutative(cap as int, RAMP_ONE as int);
    vstd::arithmetic::div_mod::lemma_multiply_divide_lt(count * RAMP_ONE, cap as int, RAMP_ONE as int);
    lemma_product4_bound(
        (RAMP_ONE - t) as int,
        (RAMP_ONE - t) as int,
        (RAMP_ONE - t) as int,
        t,
    );
    vstd::arithmetic::div_mod::lemma_div_pos_is_pos(
        (17 * 255) * ((RAMP_ONE - t) * (RAMP_ONE - t) * (RAMP_ONE - t) * t),
        2 * ramp_one_pow4(),
    );
}

/// The cap itself, the escape time of a point that did not escape, is
/// always shown as black.
pub proof fn lemma_cap_is_black(cap: u32)
    ensures
        color_of(cap as int, cap as int) == black(),
{
}

} // verus!
