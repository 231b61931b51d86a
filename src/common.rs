use vstd::prelude::*;

verus! {

/// A value that can be turned about the origin by an angle given as
/// `AngleType` (a raw radian scalar, or an angle value).
///
/// `rotate` changes the value in place; `rotated` leaves it as it is and
/// returns the turned copy.
pub trait Rotatable<AngleType> {
    type Output;

    fn rotate(&mut self, angle: AngleType);

    fn rotated(&self, angle: AngleType) -> Self::Output;
}

/// A value with a unit form: an angle reduced into one full turn, or a
/// vector scaled to length one.
///
/// `normalize` changes the value in place; `normalized` leaves it as it is
/// and returns the reduced copy.
pub trait Normalizable: Sized {
    fn normalize(&mut self);

    fn normalized(&self) -> Self;
}

} // verus!
