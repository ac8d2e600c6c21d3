//! The four compass directions a robot can face, and how turning moves between them.

use vstd::prelude::*;

verus! {

/// The direction a robot is facing.
#[derive(Debug, PartialEq, Eq, Clone, Copy, Structural)]
pub enum RobotOrientation {
    North,
    South,
    East,
    West,
}

impl RobotOrientation {
    /// The direction faced after a quarter turn to the right:
    /// north, east, south, west, and north again.
    pub open spec fn right(self) -> RobotOrientation {
        match self {
            RobotOrientation::North => RobotOrientation::East,
            RobotOrientation::East => RobotOrientation::South,
            RobotOrientation::South => RobotOrientation::West,
            RobotOrientation::West => RobotOrientation::North,
        }
    }

    /// The direction faced after a quarter turn to the left.
    pub open spec fn left(self) -> RobotOrientation {
        match self {
            RobotOrientation::North => RobotOrientation::West,
            RobotOrientation::West => RobotOrientation::South,
            RobotOrientation::South => RobotOrientation::East,
            RobotOrientation::East => RobotOrientation::North,
        }
    }

    /// How far one step forward moves along the x axis: east is positive, west negative.
    pub open spec fn dx(self) -> int {
        match self {
            RobotOrientation::East => 1,
            RobotOrientation::West => -1,
            _ => 0,
        }
    }

    /// How far one step forward moves along the y axis: north is positive, south negative.
    pub open spec fn dy(self) -> int {
        match self {
            RobotOrientation::North => 1,
            RobotOrientation::South => -1,
            _ => 0,
        }
    }

    /// The letter that stands for this direction in a printed robot.
    pub open spec fn code(self) -> char {
        match self {
            RobotOrientation::North => 'N',
            RobotOrientation::South => 'S',
            RobotOrientation::East => 'L',
            RobotOrientation::West => 'O',
        }
    }
}

/// Four quarter turns to the right face the direction one started with.
pub proof fn lemma_four_rights_is_identity(o: RobotOrientation)
    ensures
        o.right().right().right().right() == o,
{
}

/// Four quarter turns to the left face the direction one started with.
pub proof fn lemma_four_lefts_is_identity(o: RobotOrientation)
    ensures
        o.left().left().left().left() == o,
{
}

/// A turn to the left undoes a turn to the right, and the other way round.
pub proof fn lemma_left_and_right_cancel(o: RobotOrientation)
    ensures
        o.right().left() == o,
        o.left().right() == o,
{
}

} // verus!
