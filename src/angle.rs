use std::cmp::Ordering;
use vstd::prelude::*;
use vstd::arithmetic::div_mod::{lemma_fundamental_div_mod, lemma_mod_multiples_basic, lemma_small_mod};

use crate::order::order_of;

verus! {

/// Whether a remainder that compares with zero as `c` is negative.
pub open spec fn below_zero(c: Option<Ordering>) -> bool {
    c == Some(Ordering::Less)
}

/// Whether the remainder of an angle by a full turn, which compares with
/// zero as `rem_vs_zero`, needs a full turn added to fall into
/// `[0, full turn)`: the remainder takes the sign of the angle, so exactly
/// the negative ones do.
pub fn needs_full_turn(rem_vs_zero: Option<Ordering>) -> (r: bool)
    ensures
        r == below_zero(rem_vs_zero),
{
    matches!(rem_vs_zero, Some(Ordering::Less))
}

/// The remainder of `x` by `t` with the sign of `x`, as `%` on floating
/// point gives it.
pub open spec fn signed_rem(x: int, t: int) -> int {
    if x >= 0 {
        x % t
    } else {
        -((-x) % t)
    }
}

/// The reduction of `x` by the period `t`: the signed remainder, with `t`
/// added where `needs_full_turn` says so.
pub open spec fn reduced(x: int, t: int) -> int {
    let r = signed_rem(x, t);
    if below_zero(Some(order_of(r, 0))) {
        r + t
    } else {
        r
    }
}

/// For whole-number values and a positive period, reduction lands in
/// `[0, t)` and differs from the value by a whole number of periods.
pub proof fn lemma_reduced_in_one_turn(x: int, t: int)
    requires
        t > 0,
    ensures
        0 <= reduced(x, t) < t,
        (x - reduced(x, t)) % t == 0,
{
    if x >= 0 {
        lemma_fundamental_div_mod(x, t);
        lemma_mod_multiples_basic(x / t, t);
        assert(x - x % t == (x / t) * t) by (nonlinear_arith)
            requires
                x == t * (x / t) + (x % t),
        ;
    } else {
        let y = -x;
        let q = y / t;
        let s = y % t;
        lemma_fundamental_div_mod(y, t);
        if s > 0 {
            lemma_mod_multiples_basic(-(q + 1), t);
            assert(x - (t - s) == (-(q + 1)) * t) by (nonlinear_arith)
                requires
                    y == t * q + s,
                    x == -y,
            ;
        } else {
            lemma_mod_multiples_basic(-q, t);
            assert(x == (-q) * t) by (nonlinear_arith)
                requires
                    y == t * q + s,
                    x == -y,
                    s == 0,
            ;
        }
    }
}

/// Reducing a value that already lies in `[0, t)` leaves it unchanged.
pub proof fn lemma_reduced_keeps_one_turn(x: int, t: int)
    requires
        0 <= x < t,
    ensures
        reduced(x, t) == x,
{
    lemma_small_mod(x as nat, t as nat);
}

} // verus!
