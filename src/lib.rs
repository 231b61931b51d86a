//! Capabilities shared by the planar geometry value types (turning a value
//! about the origin, scaling it to its unit form), and the decisions of those
//! types that rest on how their values compare: which bounds a rectangle
//! keeps when two are combined or intersected, whether rectangles collide,
//! whether a point lies in one, when a vector has a direction to scale, and
//! when a remainder of an angle needs a full turn added.

pub mod angle;
pub mod collision;
pub mod common;
pub mod order;
pub mod rect;
pub mod vector;

pub use angle::needs_full_turn;
pub use collision::{collides, AxisOrder};
pub use common::{Normalizable, Rotatable};
pub use rect::{
    bounds_in_order, combine_keeps, extent_empty, extent_finite, intersect_keeps, keep_higher,
    keep_lower, point_within, Keep, Keeps, PointOrder, RectOrder, SideOrder,
};
pub use vector::has_direction;
