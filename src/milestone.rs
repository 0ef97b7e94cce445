use vstd::prelude::*;

use crate::position::Position;

verus! {

/// A navigation waypoint: the pose to reach and the translational speeds
/// (at departure, on arrival, and at most) that a path follower should use.
#[derive(Clone, Copy, Debug)]
pub struct Milestone<S, A, const X0: usize, const Y0: usize, const THETA0: usize> {
    pub target_position: Position<S, A, X0, Y0, THETA0>,
    pub starting_velocity_translational: S,
    pub target_velocity_translational: S,
    pub max_velocity_translational: S,
}

impl<S, A, const X0: usize, const Y0: usize, const THETA0: usize> Milestone<S, A, X0, Y0, THETA0> {
    /// The waypoint that stores the four given values as they are.
    pub open spec fn spec_new(
        target_position: Position<S, A, X0, Y0, THETA0>,
        starting_velocity_translational: S,
        target_velocity_translational: S,
        max_velocity_translational: S,
    ) -> Self {
        Milestone {
            target_position,
            starting_velocity_translational,
            target_velocity_translational,
            max_velocity_translational,
        }
    }

    pub fn new(
        target_position: Position<S, A, X0, Y0, THETA0>,
        starting_velocity_translational: S,
        target_velocity_translational: S,
        max_velocity_translational: S,
    ) -> (r: Self)
        ensures
            r == Self::spec_new(
                target_position,
                starting_velocity_translational,
                target_velocity_translational,
                max_velocity_translational,
            ),
    {
        Milestone {
            target_position,
            starting_velocity_translational,
            target_velocity_translational,
            max_velocity_translational,
        }
    }
}

/// A waypoint hands back, field by field, exactly the pose and the three
/// speeds it was built from: construction transforms nothing.
pub proof fn lemma_milestone_fields_round_trip<S, A, const X0: usize, const Y0: usize, const THETA0: usize>(
    target_position: Position<S, A, X0, Y0, THETA0>,
    starting_velocity_translational: S,
    target_velocity_translational: S,
    max_velocity_translational: S,
)
    ensures
        ({
            let m = Milestone::<S, A, X0, Y0, THETA0>::spec_new(
                target_position,
                starting_velocity_translational,
                target_velocity_translational,
                max_velocity_translational,
            );
            &&& m.target_position == target_position
            &&& m.starting_velocity_translational == starting_velocity_translational
            &&& m.target_velocity_translational == target_velocity_translational
            &&& m.max_velocity_translational == max_velocity_translational
        }),
{
}

} // verus!
