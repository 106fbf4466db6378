//! The direction in which a coordinate axis runs.

use vstd::prelude::*;

verus! {

/// The direction of one axis of a coordinate system, as the engine tells it.
#[derive(Debug, Clone, Copy, PartialEq, Eq, Structural)]
pub enum AxisOrientationType {
    Other,
    North,
    South,
    East,
    West,
    Up,
    Down,
}

impl AxisOrientationType {
    /// The direction that the engine writes as `code`. A code that the engine
    /// does not define reads as `Other`.
    pub open spec fn of_code(code: u32) -> AxisOrientationType {
        if code == 1 {
            AxisOrientationType::North
        } else if code == 2 {
            AxisOrientationType::South
        } else if code == 3 {
            AxisOrientationType::East
        } else if code == 4 {
            AxisOrientationType::West
        } else if code == 5 {
            AxisOrientationType::Up
        } else if code == 6 {
            AxisOrientationType::Down
        } else {
            AxisOrientationType::Other
        }
    }

    /// Reads a direction from the engine's code for it.
    pub fn from_code(code: u32) -> (orientation: AxisOrientationType)
        ensures
            orientation == Self::of_code(code),
    {
        match code {
            1 => AxisOrientationType::North,
            2 => AxisOrientationType::South,
            3 => AxisOrientationType::East,
            4 => AxisOrientationType::West,
            5 => AxisOrientationType::Up,
            6 => AxisOrientationType::Down,
            _ => AxisOrientationType::Other,
        }
    }
}

} // verus!
