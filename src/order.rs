use std::cmp::Ordering;
use vstd::prelude::*;

verus! {

/// Whether a comparison says "greater than or equal".
pub open spec fn at_least(c: Option<Ordering>) -> bool {
    c == Some(Ordering::Greater) || c == Some(Ordering::Equal)
}

/// Whether a comparison says "less than or equal".
pub open spec fn at_most(c: Option<Ordering>) -> bool {
    c == Some(Ordering::Less) || c == Some(Ordering::Equal)
}

/// The order of two positions.
pub open spec fn order_of(a: int, b: int) -> Ordering {
    if a < b {
        Ordering::Less
    } else if a == b {
        Ordering::Equal
    } else {
        Ordering::Greater
    }
}

/// Whether a comparison says "greater than or equal".
pub fn is_at_least(c: Option<Ordering>) -> (r: bool)
    ensures
        r == at_least(c),
{
    matches!(c, Some(Ordering::Greater) | Some(Ordering::Equal))
}

/// Whether a comparison says "less than or equal".
pub fn is_at_most(c: Option<Ordering>) -> (r: bool)
    ensures
        r == at_most(c),
{
    matches!(c, Some(Ordering::Less) | Some(Ordering::Equal))
}

} // verus!
