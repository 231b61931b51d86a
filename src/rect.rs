use std::cmp::Ordering;
use vstd::prelude::*;

use crate::collision::AxisOrder;
use crate::order::{at_least, at_most, is_at_least, is_at_most, order_of};

verus! {

/// Which of two values a rectangle operation keeps for one bound: its own
/// (the left operand's) or the other operand's.
#[derive(Clone, Copy, Debug, PartialEq, Eq)]
pub enum Keep {
    Own,
    Other,
}

/// How one bound of a rectangle compares with the matching bound of another
/// (or with a point's coordinate): `vs_other` is the comparison of the own
/// value with the other, `None` where they are unordered; `own_is_nan` says
/// whether the own value is not a number at all.
#[derive(Clone, Copy, Debug, PartialEq, Eq)]
pub struct SideOrder {
    pub vs_other: Option<Ordering>,
    pub own_is_nan: bool,
}

/// The comparisons of the four bounds of a rectangle with those of another.
#[derive(Clone, Copy, Debug, PartialEq, Eq)]
pub struct RectOrder {
    pub left: SideOrder,
    pub top: SideOrder,
    pub right: SideOrder,
    pub bottom: SideOrder,
}

/// The value kept for each bound of a rectangle built from two.
#[derive(Clone, Copy, Debug, PartialEq, Eq)]
pub struct Keeps {
    pub left: Keep,
    pub top: Keep,
    pub right: Keep,
    pub bottom: Keep,
}

/// The lower of two values, a value that is not a number giving way to one
/// that is: the other is kept when the own value is not a number or is
/// greater.
pub open spec fn lower(s: SideOrder) -> Keep {
    if s.own_is_nan || s.vs_other == Some(Ordering::Greater) {
        Keep::Other
    } else {
        Keep::Own
    }
}

/// The higher of two values, a value that is not a number giving way to one
/// that is: the other is kept when the own value is not a number or is less.
pub open spec fn higher(s: SideOrder) -> Keep {
    if s.own_is_nan || s.vs_other == Some(Ordering::Less) {
        Keep::Other
    } else {
        Keep::Own
    }
}

/// The bounds of the smallest rectangle covering both: the lower left and
/// bottom, the higher top and right.
pub open spec fn combine_choice(o: RectOrder) -> Keeps {
    Keeps { left: lower(o.left), top: higher(o.top), right: higher(o.right), bottom: lower(o.bottom) }
}

/// The bounds of the region both cover: the higher left and bottom, the lower
/// top and right.
pub open spec fn intersect_choice(o: RectOrder) -> Keeps {
    Keeps { left: higher(o.left), top: lower(o.top), right: lower(o.right), bottom: higher(o.bottom) }
}

/// Which of two values is the lower, as `f64::min` picks it.
pub fn keep_lower(s: SideOrder) -> (k: Keep)
    ensures
        k == lower(s),
{
    if s.own_is_nan {
        return Keep::Other;
    }
    match s.vs_other {
        Some(Ordering::Greater) => Keep::Other,
        _ => Keep::Own,
    }
}

/// Which of two values is the higher, as `f64::max` picks it.
pub fn keep_higher(s: SideOrder) -> (k: Keep)
    ensures
        k == higher(s),
{
    if s.own_is_nan {
        return Keep::Other;
    }
    match s.vs_other {
        Some(Ordering::Less) => Keep::Other,
        _ => Keep::Own,
    }
}

/// Which bounds the combination of two rectangles keeps (for a rectangle and
/// a point, the point stands as a rectangle whose left and right are its x,
/// and whose top and bottom are its y).
pub fn combine_keeps(o: &RectOrder) -> (k: Keeps)
    ensures
        k == combine_choice(*o),
{
    Keeps {
        left: keep_lower(o.left),
        top: keep_higher(o.top),
        right: keep_higher(o.right),
        bottom: keep_lower(o.bottom),
    }
}

/// Which bounds the intersection of two rectangles keeps.
pub fn intersect_keeps(o: &RectOrder) -> (k: Keeps)
    ensures
        k == intersect_choice(*o),
{
    Keeps {
        left: keep_higher(o.left),
        top: keep_lower(o.top),
        right: keep_lower(o.right),
        bottom: keep_higher(o.bottom),
    }
}

/// Whether a rectangle is valid, from the comparison of its left bound with
/// its right one and of its bottom bound with its top one: both in order,
/// equal included.
pub fn bounds_in_order(left_vs_right: Option<Ordering>, bottom_vs_top: Option<Ordering>) -> (r:
    bool)
    ensures
        r == (at_most(left_vs_right) && at_most(bottom_vs_top)),
{
    is_at_most(left_vs_right) && is_at_most(bottom_vs_top)
}

/// Whether a rectangle has a finite size, from how its width and its height
/// compare with the largest finite value: both strictly below it.
pub fn extent_finite(width_vs_max: Option<Ordering>, height_vs_max: Option<Ordering>) -> (r:
    bool)
    ensures
        r == (width_vs_max == Some(Ordering::Less) && height_vs_max == Some(Ordering::Less)),
{
    matches!(width_vs_max, Some(Ordering::Less)) && matches!(height_vs_max, Some(Ordering::Less))
}

/// Whether a rectangle is empty, from how its width and its height compare
/// with zero: both exactly zero.
pub fn extent_empty(width_vs_zero: Option<Ordering>, height_vs_zero: Option<Ordering>) -> (r:
    bool)
    ensures
        r == (width_vs_zero == Some(Ordering::Equal) && height_vs_zero == Some(Ordering::Equal)),
{
    matches!(width_vs_zero, Some(Ordering::Equal)) && matches!(
        height_vs_zero,
        Some(Ordering::Equal)
    )
}

/// How a point's coordinate compares with the two bounds of a rectangle on
/// one axis.
#[derive(Clone, Copy, Debug, PartialEq, Eq)]
pub struct PointOrder {
    pub vs_lo: Option<Ordering>,
    pub vs_hi: Option<Ordering>,
}

/// Whether a point lies in a rectangle, bounds included, from how its x
/// compares with the left and right bounds and its y with the bottom and top.
pub fn point_within(x: PointOrder, y: PointOrder) -> (r: bool)
    ensures
        r == (at_least(x.vs_lo) && at_most(x.vs_hi) && at_least(y.vs_lo) && at_most(y.vs_hi)),
{
    is_at_least(x.vs_lo) && is_at_most(x.vs_hi) && is_at_least(y.vs_lo) && is_at_most(y.vs_hi)
}

/// A rectangle with its bounds at ordered positions.
pub struct Bounds {
    pub left: int,
    pub top: int,
    pub right: int,
    pub bottom: int,
}

impl Bounds {
    /// Left not past right, bottom not past top.
    pub open spec fn valid(self) -> bool {
        self.left <= self.right && self.bottom <= self.top
    }

    /// Every bound lies within `[-m, m]`.
    pub open spec fn within(self, m: int) -> bool {
        -m <= self.left <= m && -m <= self.top <= m && -m <= self.right <= m && -m <= self.bottom
            <= m
    }

    /// The comparisons of these bounds with those of `other`.
    pub open spec fn order_vs(self, other: Bounds) -> RectOrder {
        RectOrder {
            left: SideOrder { vs_other: Some(order_of(self.left, other.left)), own_is_nan: false },
            top: SideOrder { vs_other: Some(order_of(self.top, other.top)), own_is_nan: false },
            right: SideOrder {
                vs_other: Some(order_of(self.right, other.right)),
                own_is_nan: false,
            },
            bottom: SideOrder {
                vs_other: Some(order_of(self.bottom, other.bottom)),
                own_is_nan: false,
            },
        }
    }

    /// The rectangle made of the bounds that `k` keeps from these and `other`.
    pub open spec fn build(self, k: Keeps, other: Bounds) -> Bounds {
        Bounds {
            left: if k.left == Keep::Own { self.left } else { other.left },
            top: if k.top == Keep::Own { self.top } else { other.top },
            right: if k.right == Keep::Own { self.right } else { other.right },
            bottom: if k.bottom == Keep::Own { self.bottom } else { other.bottom },
        }
    }

    /// The combination of these bounds with `other`.
    pub open spec fn combined(self, other: Bounds) -> Bounds {
        self.build(combine_choice(self.order_vs(other)), other)
    }

    /// The intersection of these bounds with `other`.
    pub open spec fn intersected(self, other: Bounds) -> Bounds {
        self.build(intersect_choice(self.order_vs(other)), other)
    }

    /// The inside-out rectangle at the extremes `m`.
    pub open spec fn null(m: int) -> Bounds {
        Bounds { left: m, top: -m, right: -m, bottom: m }
    }

    /// The rectangle spanning the extremes `m`.
    pub open spec fn infinite(m: int) -> Bounds {
        Bounds { left: -m, top: m, right: m, bottom: -m }
    }

    /// The horizontal comparisons of `other`'s bounds with these, as
    /// `collides` takes them.
    pub open spec fn horizontal_vs(self, other: Bounds) -> AxisOrder {
        AxisOrder::of_bounds(other.left, other.right, self.left, self.right)
    }

    /// The vertical comparisons of `other`'s bounds with these, as
    /// `collides` takes them.
    pub open spec fn vertical_vs(self, other: Bounds) -> AxisOrder {
        AxisOrder::of_bounds(other.bottom, other.top, self.bottom, self.top)
    }
}

/// Combining keeps the lower left and bottom and the higher top and right:
/// each bound is the minimum or the maximum of the two.
pub proof fn lemma_combined_is_min_max(a: Bounds, b: Bounds)
    ensures
        a.combined(b) == (Bounds {
            left: if a.left <= b.left { a.left } else { b.left },
            top: if a.top >= b.top { a.top } else { b.top },
            right: if a.right >= b.right { a.right } else { b.right },
            bottom: if a.bottom <= b.bottom { a.bottom } else { b.bottom },
        }),
{
}

/// Intersecting keeps the higher left and bottom and the lower top and right.
pub proof fn lemma_intersected_is_max_min(a: Bounds, b: Bounds)
    ensures
        a.intersected(b) == (Bounds {
            left: if a.left >= b.left { a.left } else { b.left },
            top: if a.top <= b.top { a.top } else { b.top },
            right: if a.right <= b.right { a.right } else { b.right },
            bottom: if a.bottom >= b.bottom { a.bottom } else { b.bottom },
        }),
{
}

/// The null rectangle is the identity of combination: combining it with any
/// rectangle whose bounds lie within its extremes gives that rectangle.
pub proof fn lemma_null_combine_identity(r: Bounds, m: int)
    requires
        r.within(m),
    ensures
        Bounds::null(m).combined(r) == r,
{
}

/// The infinite rectangle is the identity of intersection: intersecting it
/// with any rectangle whose bounds lie within its extremes gives that
/// rectangle.
pub proof fn lemma_infinite_intersect_identity(r: Bounds, m: int)
    requires
        r.within(m),
    ensures
        Bounds::infinite(m).intersected(r) == r,
{
}

/// Two valid rectangles that are apart on an axis intersect to an invalid
/// rectangle.
pub proof fn lemma_disjoint_intersection_invalid(a: Bounds, b: Bounds)
    requires
        a.valid(),
        b.valid(),
        a.right < b.left || b.right < a.left || a.top < b.bottom || b.top < a.bottom,
    ensures
        !a.intersected(b).valid(),
{
}

/// Two valid rectangles collide exactly when their intersection is valid.
pub proof fn lemma_collides_iff_intersection_valid(a: Bounds, b: Bounds)
    requires
        a.valid(),
        b.valid(),
    ensures
        (a.horizontal_vs(b).meets() && a.vertical_vs(b).meets()) <==> a.intersected(b).valid(),
{
}

/// The combination of two rectangles covers both: each is inside it.
pub proof fn lemma_combined_covers(a: Bounds, b: Bounds)
    ensures
        a.combined(b).left <= a.left && a.combined(b).left <= b.left,
        a.combined(b).right >= a.right && a.combined(b).right >= b.right,
        a.combined(b).bottom <= a.bottom && a.combined(b).bottom <= b.bottom,
        a.combined(b).top >= a.top && a.combined(b).top >= b.top,
{
}

/// Whether a rectangle is valid, read from the comparisons of its bounds,
/// agrees with the order of the bounds.
pub proof fn lemma_bounds_in_order_is_valid(r: Bounds)
    ensures
        (at_most(Some(order_of(r.left, r.right))) && at_most(Some(order_of(r.bottom, r.top))))
            == r.valid(),
{
}

} // verus!
