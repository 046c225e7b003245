//! Cubic-bezier easing in fixed-point arithmetic.
//!
//! The firmware evaluates easing curves as cubic beziers with control
//! points `(0,0)`, `(p1x,p1y)`, `(p2x,p2y)` and `(1,1)`, inverting
//! `x(s) = t` with eight Newton-Raphson steps and then
//! evaluating `y(s)`. All coordinates here are carried in millionths
//! (`UNIT`), so `420_000` stands for `0.42`.

use vstd::prelude::*;

verus! {

/// One unit (1.0) in the fixed-point scale used throughout the crate.
pub const UNIT: i64 = 1_000_000;

/// `x` (or `y`) coordinate of the bezier at parameter `s`, in millionths.
///
/// Mirrors the executable computation exactly, divisions included,
/// so that the solver's result can be pinned in contracts.
pub open spec fn bez_coord(s: int, pa: int, pb: int) -> int {
    let u = UNIT as int;
    let s2 = s * s / u;
    let s3 = s2 * s / u;
    let oms = u - s;
    let oms2 = oms * oms / u;
    ((3 * oms2 * s / u) * pa) / u + ((3 * oms * s2 / u) * pb) / u + s3
}

/// Derivative `dx/ds` of the bezier's `x` coordinate, in millionths.
pub open spec fn bez_deriv(s: int, pa: int, pb: int) -> int {
    let u = UNIT as int;
    let s2 = s * s / u;
    let oms = u - s;
    let oms2 = oms * oms / u;
    let d = pb - pa;
    let mid = if d >= 0 {
        6 * ((oms * s / u) * d / u)
    } else {
        -(6 * ((oms * s / u) * (-d) / u))
    };
    3 * (oms2 * pa / u) + mid + 3 * (s2 * (u - pb) / u)
}

/// One Newton-Raphson step towards `bez_coord(s) == t`, clamped to `[0, UNIT]`.
pub open spec fn newton_step(t: int, pa: int, pb: int, s: int) -> int {
    let u = UNIT as int;
    let x = bez_coord(s, pa, pb);
    let dx = bez_deriv(s, pa, pb);
    if dx == 0 {
        s
    } else {
        let diff = x - t;
        let step = if diff >= 0 && dx > 0 {
            diff * u / dx
        } else if diff >= 0 {
            -(diff * u / (-dx))
        } else if dx > 0 {
            -((-diff) * u / dx)
        } else {
            (-diff) * u / (-dx)
        };
        let snew = s - step;
        if snew < 0 {
            0
        } else if snew > u {
            u
        } else {
            snew
        }
    }
}

/// `k` Newton-Raphson steps starting from `s`.
pub open spec fn newton_iters(t: int, pa: int, pb: int, s: int, k: nat) -> int
    decreases k,
{
    if k == 0 {
        s
    } else {
        newton_iters(t, pa, pb, newton_step(t, pa, pb, s), (k - 1) as nat)
    }
}

/// The easing value at `t`: boundary-clamped, otherwise `y(s)` at the
/// solver's approximation of `x(s) == t`, clamped to `[0, UNIT]`.
pub open spec fn bezier_value(t: int, p1x: int, p1y: int, p2x: int, p2y: int) -> int {
    let u = UNIT as int;
    if t <= 0 {
        0
    } else if t >= u {
        u
    } else {
        let s = newton_iters(t, p1x, p2x, t, 8);
        let y = bez_coord(s, p1y, p2y);
        if y < 0 {
            0
        } else if y > u {
            u
        } else {
            y
        }
    }
}

/// Range facts about every intermediate term of `bez_coord` and
/// `bez_deriv`, phrased on the raw expressions so that the executable
/// code's overflow checks can use them directly.
pub open spec fn bez_terms_ok(s: int, pa: int, pb: int) -> bool {
    let u = UNIT as int;
    let s2 = s * s / u;
    let s3 = s2 * s / u;
    let oms = u - s;
    let oms2 = oms * oms / u;
    &&& 0 <= s * s <= u * u
    &&& 0 <= s2 <= u
    &&& 0 <= s2 * s <= u * u
    &&& 0 <= s3 <= u
    &&& 0 <= oms * oms <= u * u
    &&& 0 <= oms2 <= u
    &&& 0 <= 3 * oms2 * s <= 3 * (u * u)
    &&& 0 <= 3 * oms2 * s / u <= 3 * u
    &&& 0 <= (3 * oms2 * s / u) * pa <= 3 * (u * u)
    &&& 0 <= ((3 * oms2 * s / u) * pa) / u <= 3 * u
    &&& 0 <= 3 * oms * s2 <= 3 * (u * u)
    &&& 0 <= 3 * oms * s2 / u <= 3 * u
    &&& 0 <= (3 * oms * s2 / u) * pb <= 3 * (u * u)
    &&& 0 <= ((3 * oms * s2 / u) * pb) / u <= 3 * u
    &&& 0 <= oms2 * pa <= u * u
    &&& 0 <= oms2 * pa / u <= u
    &&& 0 <= oms * s <= u * u
    &&& 0 <= oms * s / u <= u
    &&& pb - pa >= 0 ==> 0 <= (oms * s / u) * (pb - pa) <= u * u && 0 <= (oms * s / u) * (pb
        - pa) / u <= u
    &&& pb - pa < 0 ==> 0 <= (oms * s / u) * (pa - pb) <= u * u && 0 <= (oms * s / u) * (pa
        - pb) / u <= u
    &&& 0 <= s2 * (u - pb) <= u * u
    &&& 0 <= s2 * (u - pb) / u <= u
    &&& 0 <= bez_coord(s, pa, pb) <= 7 * u
    &&& -6 * u <= bez_deriv(s, pa, pb) <= 12 * u
}

pub(crate) proof fn mul_bounds(a: int, b: int, c: int, d: int)
    requires
        0 <= a <= c,
        0 <= b <= d,
    ensures
        0 <= a * b <= c * d,
{
    assert(0 <= a * b <= c * d) by (nonlinear_arith)
        requires
            0 <= a <= c,
            0 <= b <= d,
    ;
}

/// `0 <= n <= cap` implies `0 <= n / UNIT <= cap / UNIT`.
proof fn div_unit_bounds(n: int, cap: int)
    requires
        0 <= n <= cap,
    ensures
        0 <= n / (UNIT as int) <= cap / (UNIT as int),
{
    let u = UNIT as int;
    vstd::arithmetic::div_mod::lemma_div_pos_is_pos(n, u);
    vstd::arithmetic::div_mod::lemma_div_is_ordered(n, cap, u);
}

proof fn bez_terms_bounded(s: int, pa: int, pb: int)
    requires
        0 <= s <= UNIT,
        0 <= pa <= UNIT,
        0 <= pb <= UNIT,
    ensures
        bez_terms_ok(s, pa, pb),
{
    let u = UNIT as int;
    assert(u * u / u == u);
    assert((3 * (u * u)) / u == 3 * u);
    assert(3 * u * u == 3 * (u * u));
    assert((3 * u) * u == 3 * (u * u));

    mul_bounds(s, s, u, u);
    div_unit_bounds(s * s, u * u);
    let s2 = s * s / u;
    mul_bounds(s2, s, u, u);
    div_unit_bounds(s2 * s, u * u);
    let oms = u - s;
    mul_bounds(oms, oms, u, u);
    div_unit_bounds(oms * oms, u * u);
    let oms2 = oms * oms / u;

    mul_bounds(3 * oms2, s, 3 * u, u);
    div_unit_bounds(3 * oms2 * s, 3 * (u * u));
    mul_bounds(3 * oms2 * s / u, pa, 3 * u, u);
    div_unit_bounds((3 * oms2 * s / u) * pa, 3 * (u * u));

    mul_bounds(3 * oms, s2, 3 * u, u);
    div_unit_bounds(3 * oms * s2, 3 * (u * u));
    mul_bounds(3 * oms * s2 / u, pb, 3 * u, u);
    div_unit_bounds((3 * oms * s2 / u) * pb, 3 * (u * u));

    mul_bounds(oms2, pa, u, u);
    div_unit_bounds(oms2 * pa, u * u);
    mul_bounds(oms, s, u, u);
    div_unit_bounds(oms * s, u * u);
    if pb - pa >= 0 {
        mul_bounds(oms * s / u, pb - pa, u, u);
        div_unit_bounds((oms * s / u) * (pb - pa), u * u);
    } else {
        mul_bounds(oms * s / u, pa - pb, u, u);
        div_unit_bounds((oms * s / u) * (pa - pb), u * u);
    }
    mul_bounds(s2, u - pb, u, u);
    div_unit_bounds(s2 * (u - pb), u * u);
}

/// Evaluate the cubic bezier easing curve at `t` (millionths).
///
/// Control points `(p1x, p1y)` and `(p2x, p2y)` lie in the unit square.
/// Returns `0` for `t <= 0`, `UNIT` for `t >= UNIT`, and otherwise the
/// fixed-point Newton-Raphson approximation pinned by `bezier_value`.
pub fn cubic_bezier(t: i64, p1x: i64, p1y: i64, p2x: i64, p2y: i64) -> (y: i64)
    requires
        0 <= p1x <= UNIT,
        0 <= p1y <= UNIT,
        0 <= p2x <= UNIT,
        0 <= p2y <= UNIT,
    ensures
        y == bezier_value(t as int, p1x as int, p1y as int, p2x as int, p2y as int),
        0 <= y <= UNIT,
        t <= 0 ==> y == 0,
        t >= UNIT ==> y == UNIT,
{
    if t <= 0 {
        return 0;
    }
    if t >= UNIT {
        return UNIT;
    }

    let ghost t0 = t as int;
    let mut s: i64 = t;
    let mut i: u32 = 0;
    while i < 8
        invariant
            0 <= s <= UNIT,
            0 <= p1x <= UNIT,
            0 <= p2x <= UNIT,
            0 < t0 < UNIT,
            t0 == t,
            s == newton_iters(t0, p1x as int, p2x as int, t0, i as nat),
            i <= 8,
        decreases 8 - i,
    {
        proof {
            bez_terms_bounded(s as int, p1x as int, p2x as int);
        }
        let s2: i64 = s * s / UNIT;
        let s3: i64 = s2 * s / UNIT;
        let oms: i64 = UNIT - s;
        let oms2: i64 = oms * oms / UNIT;

        let x: i64 = ((3 * oms2 * s / UNIT) * p1x) / UNIT + ((3 * oms * s2 / UNIT) * p2x) / UNIT
            + s3;

        let d: i64 = p2x - p1x;
        let mid: i64 = if d >= 0 {
            6 * ((oms * s / UNIT) * d / UNIT)
        } else {
            -(6 * ((oms * s / UNIT) * (-d) / UNIT))
        };
        let dx: i64 = 3 * (oms2 * p1x / UNIT) + mid + 3 * (s2 * (UNIT - p2x) / UNIT);

        assert(x == bez_coord(s as int, p1x as int, p2x as int));
        assert(dx == bez_deriv(s as int, p1x as int, p2x as int));

        if dx != 0 {
            let diff: i64 = x - t;
            let step: i64 = if diff >= 0 && dx > 0 {
                proof {
                    mul_bounds(diff as int, UNIT as int, 7 * (UNIT as int), UNIT as int);
                    div_step_bounded(diff as int * UNIT, dx as int);
                }
                diff * UNIT / dx
            } else if diff >= 0 {
                proof {
                    mul_bounds(diff as int, UNIT as int, 7 * (UNIT as int), UNIT as int);
                    div_step_bounded(diff as int * UNIT, -(dx as int));
                }
                -(diff * UNIT / (-dx))
            } else if dx > 0 {
                proof {
                    mul_bounds(-(diff as int), UNIT as int, UNIT as int, UNIT as int);
                    div_step_bounded(-(diff as int) * UNIT, dx as int);
                }
                -((-diff) * UNIT / dx)
            } else {
                proof {
                    mul_bounds(-(diff as int), UNIT as int, UNIT as int, UNIT as int);
                    div_step_bounded(-(diff as int) * UNIT, -(dx as int));
                }
                (-diff) * UNIT / (-dx)
            };
            let snew: i64 = s - step;
            s = if snew < 0 {
                0
            } else if snew > UNIT {
                UNIT
            } else {
                snew
            };
        }
        proof {
            newton_iters_unfold(t0, p1x as int, p2x as int, t0, i as nat);
        }
        i = i + 1;
    }

    proof {
        bez_terms_bounded(s as int, p1y as int, p2y as int);
    }
    let s2: i64 = s * s / UNIT;
    let s3: i64 = s2 * s / UNIT;
    let oms: i64 = UNIT - s;
    let oms2: i64 = oms * oms / UNIT;
    let y: i64 = ((3 * oms2 * s / UNIT) * p1y) / UNIT + ((3 * oms * s2 / UNIT) * p2y) / UNIT + s3;

    if y < 0 {
        0
    } else if y > UNIT {
        UNIT
    } else {
        y
    }
}

/// A Newton step's division is nonnegative and no larger than its
/// numerator (the divisor is at least 1).
proof fn div_step_bounded(n: int, d: int)
    requires
        0 <= n,
        1 <= d,
    ensures
        0 <= n / d <= n,
{
    vstd::arithmetic::div_mod::lemma_div_pos_is_pos(n, d);
    vstd::arithmetic::div_mod::lemma_div_nonincreasing(n, d);
}

/// Scaling a unit-interval value onto `[0, w]` stays in `[0, w]`.
pub(crate) proof fn scale_by_unit_bounds(v: int, w: int)
    requires
        0 <= v <= UNIT,
        0 <= w,
    ensures
        0 <= v * w / (UNIT as int) <= w,
{
    mul_bounds(v, w, UNIT as int, w);
    vstd::arithmetic::div_mod::lemma_div_pos_is_pos(v * w, UNIT as int);
    vstd::arithmetic::div_mod::lemma_div_is_ordered(v * w, (UNIT as int) * w, UNIT as int);
    vstd::arithmetic::div_mod::lemma_div_multiples_vanish(w, UNIT as int);
}

/// Unfolds one step of `newton_iters` from the front, so a loop can
/// maintain `s == newton_iters(t, pa, pb, s0, i)`.
proof fn newton_iters_unfold(t: int, pa: int, pb: int, s0: int, i: nat)
    ensures
        newton_iters(t, pa, pb, s0, i + 1) == newton_step(
            t,
            pa,
            pb,
            newton_iters(t, pa, pb, s0, i),
        ),
    decreases i,
{
    if i == 0 {
        assert(newton_iters(t, pa, pb, s0, 1) == newton_step(t, pa, pb, s0)) by {
            reveal_with_fuel(newton_iters, 2);
        }
    } else {
        newton_iters_unfold(t, pa, pb, newton_step(t, pa, pb, s0), (i - 1) as nat);
        assert(newton_iters(t, pa, pb, s0, i + 1) == newton_iters(
            t,
            pa,
            pb,
            newton_step(t, pa, pb, s0),
            i,
        ));
        assert(newton_iters(t, pa, pb, s0, i) == newton_iters(
            t,
            pa,
            pb,
            newton_step(t, pa, pb, s0),
            (i - 1) as nat,
        ));
    }
}


/// Ease-out preset `(0, 0, 0.58, 1)`, used for the MOVE entry phase.
pub open spec fn ease_out_value(t: int) -> int {
    bezier_value(t, 0, 0, 580_000, UNIT as int)
}

/// Ease-in preset `(0.42, 0, 1, 1)`, used for the MOVE exit phase.
pub open spec fn ease_in_value(t: int) -> int {
    bezier_value(t, 420_000, 0, UNIT as int, UNIT as int)
}

/// Ease-in-out preset `(0.42, 0, 0.58, 1)`, used for SWIPE, the bar
/// sweeps and the entry slide-in.
pub open spec fn ease_in_out_value(t: int) -> int {
    bezier_value(t, 420_000, 0, 580_000, UNIT as int)
}

/// Ease-out: fast start, slow end.
pub fn ease_out(t: i64) -> (r: i64)
    ensures
        r == ease_out_value(t as int),
        0 <= r <= UNIT,
        t <= 0 ==> r == 0,
        t >= UNIT ==> r == UNIT,
{
    cubic_bezier(t, 0, 0, 580_000, UNIT)
}

/// Ease-in: slow start, fast end.
pub fn ease_in(t: i64) -> (r: i64)
    ensures
        r == ease_in_value(t as int),
        0 <= r <= UNIT,
        t <= 0 ==> r == 0,
        t >= UNIT ==> r == UNIT,
{
    cubic_bezier(t, 420_000, 0, UNIT, UNIT)
}

/// Ease-in-out: slow start and end.
pub fn ease_in_out(t: i64) -> (r: i64)
    ensures
        r == ease_in_out_value(t as int),
        0 <= r <= UNIT,
        t <= 0 ==> r == 0,
        t >= UNIT ==> r == UNIT,
{
    cubic_bezier(t, 420_000, 0, 580_000, UNIT)
}

/// The eased x-offset the SWIPE effect uses for scanline `y` of a
/// surface `h` pixels tall.
pub open spec fn swipe_bezier_at(y: int, h: int) -> int {
    ease_in_out_value(y * (UNIT as int) / h) * h / (UNIT as int)
}

/// Precompute the SWIPE effect's eased x-offset for each scanline.
///
/// Entry `y` is `ease_in_out(y / height)` scaled back to pixels; every
/// entry lies in `[0, height]` and entry `0` is `0`.
pub fn precompute_swipe_bezier(height: u32) -> (values: Vec<i32>)
    requires
        height <= 0x7fff_ffff,
    ensures
        values@.len() == height,
        forall|i: int|
            0 <= i < height ==> values@[i] == swipe_bezier_at(i, height as int),
        forall|i: int| 0 <= i < height ==> 0 <= #[trigger] values@[i] <= height,
{
    let mut values: Vec<i32> = Vec::new();
    let mut y: u32 = 0;
    while y < height
        invariant
            y <= height,
            height <= 0x7fff_ffff,
            values@.len() == y,
            forall|i: int|
                0 <= i < y ==> values@[i] == swipe_bezier_at(i, height as int),
            forall|i: int| 0 <= i < y ==> 0 <= #[trigger] values@[i] <= height,
        decreases height - y,
    {
        let t: i64 = (y as i64) * UNIT / (height as i64);
        let v: i64 = ease_in_out(t);
        proof {
            mul_bounds(v as int, height as int, UNIT as int, height as int);
            vstd::arithmetic::div_mod::lemma_div_pos_is_pos(v as int * height as int, UNIT as int);
            vstd::arithmetic::div_mod::lemma_div_is_ordered(
                v as int * height as int,
                (UNIT as int) * (height as int),
                UNIT as int,
            );
            vstd::arithmetic::div_mod::lemma_div_multiples_vanish(height as int, UNIT as int);
        }
        let val: i64 = v * (height as i64) / UNIT;
        values.push(val as i32);
        y = y + 1;
    }
    values
}

} // verus!
