use vstd::prelude::*;

verus! {

/// Fixed-point unit, `2^48`: the value `SCALE` stands for the real number 1.
pub const SCALE: i64 = 281474976710656;

/// Largest magnitude of a coordinate that the engine accepts (4096 in real units).
pub const COORD_LIMIT: i64 = 1152921504606846976;

/// Squared escape radius, in real units (the textbook radius 2).
pub const ESCAPE_RADIUS_SQUARED: i64 = 4;

/// The squared escape radius at the scale of a squared fixed-point value.
pub open spec fn escape_limit() -> int {
    ESCAPE_RADIUS_SQUARED * SCALE * SCALE
}

/// Bound on each component of an orbit point that has not yet escaped.
pub open spec fn orbit_bound() -> int {
    ESCAPE_RADIUS_SQUARED * SCALE + COORD_LIMIT
}

pub open spec fn abs(x: int) -> int {
    if x >= 0 { x } else { -x }
}

/// Brings a product of two fixed-point values back to fixed-point scale,
/// rounding toward zero.
pub open spec fn rescale(x: int) -> int {
    if x >= 0 { x / (SCALE as int) } else { -((-x) / (SCALE as int)) }
}

/// Real part of `z * z + c`.
pub open spec fn next_re(zr: int, zi: int, cr: int) -> int {
    rescale(zr * zr - zi * zi) + cr
}

/// Imaginary part of `z * z + c`.
pub open spec fn next_im(zr: int, zi: int, ci: int) -> int {
    rescale(2 * zr * zi) + ci
}

/// `|z|^2` exceeds the squared escape radius.
pub open spec fn escaped(zr: int, zi: int) -> bool {
    zr * zr + zi * zi > escape_limit()
}

/// The iteration count reached from orbit point `z` after `n` steps.
pub open spec fn iterations_from(zr: int, zi: int, cr: int, ci: int, n: nat, cap: nat) -> nat
    decreases cap - n,
{
    if n >= cap || escaped(zr, zi) {
        n
    } else {
        iterations_from(next_re(zr, zi, cr), next_im(zr, zi, ci), cr, ci, n + 1, cap)
    }
}

/// Escape time of `c`: the number of steps of `z <- z^2 + c` from `z = 0`
/// taken while `|z|^2` stays within the escape radius, at most `cap`.
pub open spec fn escape_time(cr: int, ci: int, cap: nat) -> nat {
    iterations_from(0, 0, cr, ci, 0, cap)
}

/// A coordinate the engine can evaluate without overflow.
pub open spec fn in_coord_range(v: int) -> bool {
    -COORD_LIMIT <= v <= COORD_LIMIT
}

/// The square of an orbit component fits well within `i128`.
proof fn lemma_square_bound(x: int)
    requires
        abs(x) <= orbit_bound(),
    ensures
        0 <= x * x <= 0x4000000000000000000000000000000,
{
    let b = orbit_bound();
    assert(b == 0x1004000000000000);
    assert(0 <= x * x <= b * b) by (nonlinear_arith)
        requires
            -b <= x <= b,
    ;
}

proof fn lemma_rescale_bound(x: int)
    requires
        abs(x) <= escape_limit(),
    ensures
        abs(rescale(x)) <= ESCAPE_RADIUS_SQUARED * SCALE,
{
    let s = SCALE as int;
    let y = abs(x);
    assert(escape_limit() == (ESCAPE_RADIUS_SQUARED * SCALE) * s);
    vstd::arithmetic::div_mod::lemma_div_is_ordered(y, escape_limit(), s);
    vstd::arithmetic::div_mod::lemma_div_multiples_vanish(ESCAPE_RADIUS_SQUARED * SCALE, s);
}

/// One step from a point that has not escaped stays within `orbit_bound`.
proof fn lemma_step_bounded(zr: int, zi: int, cr: int, ci: int)
    requires
        !escaped(zr, zi),
        in_coord_range(cr),
        in_coord_range(ci),
    ensures
        abs(next_re(zr, zi, cr)) <= orbit_bound(),
        abs(next_im(zr, zi, ci)) <= orbit_bound(),
{
    assert(zr * zr >= 0 && zi * zi >= 0) by (nonlinear_arith);
    assert(abs(2 * zr * zi) <= zr * zr + zi * zi) by (nonlinear_arith);
    lemma_rescale_bound(zr * zr - zi * zi);
    lemma_rescale_bound(2 * zr * zi);
}

proof fn lemma_origin_stays(n: nat, cap: nat)
    requires
        n <= cap,
    ensures
        iterations_from(0, 0, 0, 0, n, cap) == cap,
    decreases cap - n,
{
    if n < cap {
        assert(!escaped(0, 0));
        assert(next_re(0, 0, 0) == 0);
        assert(next_im(0, 0, 0) == 0);
        lemma_origin_stays(n + 1, cap);
    }
}

/// The origin never escapes: its escape time is the cap itself, for every cap.
pub proof fn lemma_origin_reaches_cap(cap: nat)
    ensures
        escape_time(0, 0, cap) == cap,
{
    lemma_origin_stays(0, cap);
}

proof fn lemma_iterations_bounded(zr: int, zi: int, cr: int, ci: int, n: nat, cap: nat)
    requires
        n <= cap,
    ensures
        iterations_from(zr, zi, cr, ci, n, cap) <= cap,
    decreases cap - n,
{
    if n < cap && !escaped(zr, zi) {
        lemma_iterations_bounded(next_re(zr, zi, cr), next_im(zr, zi, ci), cr, ci, n + 1, cap);
    }
}

/// An escape time never exceeds its cap.
pub proof fn lemma_escape_time_bounded(cr: int, ci: int, cap: nat)
    ensures
        escape_time(cr, ci, cap) <= cap,
{
    lemma_iterations_bounded(0, 0, cr, ci, 0, cap);
}

/// The point `2 + 2i` escapes within one step, whatever the cap.
pub proof fn lemma_known_escaper(cap: nat)
    ensures
        escape_time(2 * SCALE, 2 * SCALE, cap) <= 1,
{
    let c = 2 * SCALE;
    assert(next_re(0, 0, c) == c);
    assert(next_im(0, 0, c) == c);
    assert(c * c + c * c > escape_limit()) by (nonlinear_arith)
        requires
            c == 2 * SCALE,
    ;
    assert(escaped(c, c));
    assert(iterations_from(c, c, c, c, 1, cap) == 1);
    if cap > 0 {
        assert(!escaped(0, 0));
        assert(iterations_from(0, 0, c, c, 0, cap) == iterations_from(c, c, c, c, 1, cap));
    }
}

/// The orbit point `z_n` of `c`: `z_0 = 0`, `z_{n+1} = z_n^2 + c`.
pub open spec fn orbit(cr: int, ci: int, n: nat) -> (int, int)
    decreases n,
{
    if n == 0 {
        (0, 0)
    } else {
        let z = orbit(cr, ci, (n - 1) as nat);
        (next_re(z.0, z.1, cr), next_im(z.0, z.1, ci))
    }
}

/// `z_n` is outside the escape radius.
pub open spec fn orbit_escaped(cr: int, ci: int, n: nat) -> bool {
    escaped(orbit(cr, ci, n).0, orbit(cr, ci, n).1)
}

proof fn lemma_iterations_along_orbit(cr: int, ci: int, n: nat, cap: nat)
    requires
        n <= cap,
        forall|m: nat| m < n ==> !#[trigger] orbit_escaped(cr, ci, m),
    ensures
        iterations_from(orbit(cr, ci, n).0, orbit(cr, ci, n).1, cr, ci, n, cap) == escape_time(
            cr,
            ci,
            cap,
        ),
    decreases n,
{
    if n > 0 {
        let p = (n - 1) as nat;
        assert(!orbit_escaped(cr, ci, p));
        lemma_iterations_along_orbit(cr, ci, p, cap);
    }
}

proof fn lemma_walk_orbit(cr: int, ci: int, n: nat, cap: nat)
    requires
        n <= cap,
        forall|m: nat| m < n ==> !#[trigger] orbit_escaped(cr, ci, m),
    ensures
        forall|m: nat| m < escape_time(cr, ci, cap) ==> !#[trigger] orbit_escaped(cr, ci, m),
        escape_time(cr, ci, cap) < cap ==> orbit_escaped(cr, ci, escape_time(cr, ci, cap)),
    decreases cap - n,
{
    lemma_iterations_along_orbit(cr, ci, n, cap);
    if n < cap && !orbit_escaped(cr, ci, n) {
        assert forall|m: nat| m < n + 1 implies !#[trigger] orbit_escaped(cr, ci, m) by {
            if m < n {
            }
        }
        lemma_walk_orbit(cr, ci, n + 1, cap);
    }
}

/// A count below the cap is a true escape: the orbit of `c` stays within
/// the escape radius for the first `count` points and leaves it at point
/// `count`. A count equal to the cap means that the orbit stayed within it
/// for `cap` points, so the sentinel is never the result of an escape.
pub proof fn lemma_escape_time_is_first_escape(cr: int, ci: int, cap: nat)
    ensures
        forall|m: nat| m < escape_time(cr, ci, cap) ==> !#[trigger] orbit_escaped(cr, ci, m),
        escape_time(cr, ci, cap) < cap ==> orbit_escaped(cr, ci, escape_time(cr, ci, cap)),
{
    lemma_walk_orbit(cr, ci, 0, cap);
}

fn rescale_exec(x: i128) -> (r: i128)
    requires
        abs(x as int) <= escape_limit(),
    ensures
        r == rescale(x as int),
{
    let s: u128 = SCALE as u128;
    if x >= 0 {
        ((x as u128) / s) as i128
    } else {
        let q: u128 = ((-x) as u128) / s;
        -(q as i128)
    }
}

/// Escape time of the point `c = cr + ci*i`, bounded by `cap`.
/// A result equal to `cap` means that the orbit did not escape.
pub fn escape_time_of(cr: i64, ci: i64, cap: u32) -> (r: u32)
    requires
        in_coord_range(cr as int),
        in_coord_range(ci as int),
    ensures
        r == escape_time(cr as int, ci as int, cap as nat),
        r <= cap,
{
    let mut zr: i64 = 0;
    let mut zi: i64 = 0;
    let mut count: u32 = 0;
    let mut done: bool = false;
    while count < cap && !done
        invariant
            abs(zr as int) <= orbit_bound(),
            abs(zi as int) <= orbit_bound(),
            in_coord_range(cr as int),
            in_coord_range(ci as int),
            count <= cap,
            done ==> escaped(zr as int, zi as int),
            iterations_from(zr as int, zi as int, cr as int, ci as int, count as nat, cap as nat)
                == escape_time(cr as int, ci as int, cap as nat),
        decreases cap - count + if done { 0int } else { 1int },
    {
        proof {
            lemma_square_bound(zr as int);
            lemma_square_bound(zi as int);
        }
        let r2: i128 = (zr as i128) * (zr as i128);
        let i2: i128 = (zi as i128) * (zi as i128);
        let limit: i128 = (ESCAPE_RADIUS_SQUARED as i128) * (SCALE as i128) * (SCALE as i128);
        if r2 + i2 > limit {
            done = true;
        } else {
            proof {
                lemma_step_bounded(zr as int, zi as int, cr as int, ci as int);
                assert(abs(2 * zr * zi) <= zr * zr + zi * zi) by (nonlinear_arith);
            }
            let nr: i128 = rescale_exec(r2 - i2) + (cr as i128);
            let two_ri: i128 = 2 * (zr as i128) * (zi as i128);
            let ni: i128 = rescale_exec(two_ri) + (ci as i128);
            zr = nr as i64;
            zi = ni as i64;
            count = count + 1;
        }
    }
    count
}

} // verus!
