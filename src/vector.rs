use std::cmp::Ordering;
use vstd::prelude::*;

use crate::order::order_of;

verus! {

/// Whether a vector whose length compares with zero as `c` has a direction
/// to scale: every length but an exact zero, not-a-number included.
pub open spec fn scales(c: Option<Ordering>) -> bool {
    c != Some(Ordering::Equal)
}

/// Whether a vector, whose length compares with zero as `length_vs_zero`, is
/// rescaled by `normalize`, `normalized` and `set_length`. The zero vector
/// is not: it has no direction to keep, and stays the zero vector.
pub fn has_direction(length_vs_zero: Option<Ordering>) -> (r: bool)
    ensures
        r == scales(length_vs_zero),
{
    !matches!(length_vs_zero, Some(Ordering::Equal))
}

/// A length, which is never negative, is rescaled exactly when it is
/// positive: the zero vector is left as it is.
pub proof fn lemma_scales_iff_positive(len: int)
    requires
        len >= 0,
    ensures
        scales(Some(order_of(len, 0))) <==> len > 0,
{
}

} // verus!
