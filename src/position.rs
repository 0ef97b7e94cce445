use vstd::prelude::*;

verus! {

/// A pose in the plane: coordinates `x`, `y` and heading `theta`.
///
/// `X0`, `Y0` (distance units) and `THETA0` (degrees) give the pose that a
/// value of this type starts from and returns to on reset; two poses can only
/// be compared when they share that configuration.
#[derive(Clone, Copy, Debug)]
pub struct Position<S, A, const X0: usize, const Y0: usize, const THETA0: usize> {
    pub x: S,
    pub y: S,
    pub theta: A,
}

impl<S, A, const X0: usize, const Y0: usize, const THETA0: usize> Position<S, A, X0, Y0, THETA0> {
    /// The pose at exactly the given coordinates and heading.
    pub open spec fn spec_new(x: S, y: S, theta: A) -> Self {
        Position { x, y, theta }
    }

    pub fn new(x: S, y: S, theta: A) -> (r: Self)
        ensures
            r == Self::spec_new(x, y, theta),
    {
        Position { x, y, theta }
    }
}

} // verus!
