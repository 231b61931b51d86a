use std::cmp::Ordering;
use vstd::prelude::*;

use crate::order::{at_least, at_most, is_at_least, is_at_most, order_of};

verus! {

/// How the interval `[lo, hi]` of one rectangle lies against the interval
/// `[lo, hi]` of another on one axis, given as the four comparisons of a
/// bound of the first with a bound of the second (`None` where the bounds
/// are unordered).
#[derive(Clone, Copy, Debug, PartialEq, Eq)]
pub struct AxisOrder {
    pub lo_vs_lo: Option<Ordering>,
    pub lo_vs_hi: Option<Ordering>,
    pub hi_vs_lo: Option<Ordering>,
    pub hi_vs_hi: Option<Ordering>,
}

impl AxisOrder {
    /// An end of the first interval falls within the second, ends included.
    pub open spec fn edge_within(self) -> bool {
        (at_least(self.lo_vs_lo) && at_most(self.lo_vs_hi))
            || (at_least(self.hi_vs_lo) && at_most(self.hi_vs_hi))
    }

    /// One interval holds the other, in either direction.
    pub open spec fn contains_either(self) -> bool {
        (at_least(self.lo_vs_lo) && at_most(self.hi_vs_hi))
            || (at_most(self.lo_vs_lo) && at_least(self.hi_vs_hi))
    }

    /// The two intervals share at least one point.
    pub open spec fn meets(self) -> bool {
        self.edge_within() || self.contains_either()
    }

    /// The comparisons of the bounds of `[lo, hi]` with those of
    /// `[other_lo, other_hi]`.
    pub open spec fn of_bounds(lo: int, hi: int, other_lo: int, other_hi: int) -> AxisOrder {
        AxisOrder {
            lo_vs_lo: Some(order_of(lo, other_lo)),
            lo_vs_hi: Some(order_of(lo, other_hi)),
            hi_vs_lo: Some(order_of(hi, other_lo)),
            hi_vs_hi: Some(order_of(hi, other_hi)),
        }
    }
}

/// Whether two axis-aligned rectangles touch or overlap, from how their
/// bounds compare on the horizontal axis (`h`) and on the vertical axis
/// (`v`).
///
/// They collide when an edge of the second falls within the first on one
/// axis, and on the other axis an edge falls within as well or one interval
/// holds the other; or when one interval holds the other on both axes. That
/// is: their intervals meet on both axes.
pub fn collides(h: &AxisOrder, v: &AxisOrder) -> (r: bool)
    ensures
        r == (h.meets() && v.meets()),
{
    let edge_h = (is_at_least(h.lo_vs_lo) && is_at_most(h.lo_vs_hi))
        || (is_at_least(h.hi_vs_lo) && is_at_most(h.hi_vs_hi));
    let edge_v = (is_at_least(v.lo_vs_lo) && is_at_most(v.lo_vs_hi))
        || (is_at_least(v.hi_vs_lo) && is_at_most(v.hi_vs_hi));
    let inside_h = (is_at_least(h.lo_vs_lo) && is_at_most(h.hi_vs_hi))
        || (is_at_most(h.lo_vs_lo) && is_at_least(h.hi_vs_hi));
    let inside_v = (is_at_least(v.lo_vs_lo) && is_at_most(v.hi_vs_hi))
        || (is_at_most(v.lo_vs_lo) && is_at_least(v.hi_vs_hi));

    (edge_h && (edge_v || inside_v)) || (edge_v && (edge_h || inside_h)) || (inside_h && inside_v)
}

/// For two intervals `[lo, hi]` and `[other_lo, other_hi]` with their ends
/// in order, the comparisons of their bounds say that they meet exactly when
/// they intersect: each starts no later than the other ends.
pub proof fn lemma_meets_iff_intersect(lo: int, hi: int, other_lo: int, other_hi: int)
    requires
        lo <= hi,
        other_lo <= other_hi,
    ensures
        AxisOrder::of_bounds(lo, hi, other_lo, other_hi).meets() <==> (lo <= other_hi
            && other_lo <= hi),
{
}

} // verus!
