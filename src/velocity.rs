use vstd::prelude::*;

verus! {

/// A commanded instantaneous motion: a speed along the heading and a turn rate.
#[derive(Clone, Copy, Debug)]
pub struct Velocity<S> {
    pub translational: S,
    pub rotational: S,
}

impl<S> Velocity<S> {
    /// The velocity whose components are exactly the two given values.
    pub open spec fn spec_new(translational: S, rotational: S) -> Self {
        Velocity { translational, rotational }
    }

    pub fn new(translational: S, rotational: S) -> (r: Self)
        ensures
            r == Self::spec_new(translational, rotational),
    {
        Velocity { translational, rotational }
    }
}

} // verus!
