//! The four directional controls and the unit push that each one stands for.

use vstd::prelude::*;

verus! {

/// One of the two screen axes. `X` grows to the right, `Y` grows downward.
#[derive(Clone, Copy, Debug, PartialEq, Eq, Structural)]
pub enum Axis {
    X,
    Y,
}

/// One of the four directional controls.
#[derive(Clone, Copy, Debug, PartialEq, Eq, Structural)]
pub enum Direction {
    Up,
    Down,
    Left,
    Right,
}

impl Direction {
    /// The axis along which this control pushes.
    pub open spec fn axis_spec(self) -> Axis {
        match self {
            Direction::Up | Direction::Down => Axis::Y,
            Direction::Left | Direction::Right => Axis::X,
        }
    }

    /// The sign of the push along `axis_spec()`: `-1` toward the top-left
    /// corner of the window, `+1` away from it.
    pub open spec fn sign_spec(self) -> int {
        match self {
            Direction::Up | Direction::Left => -1,
            Direction::Down | Direction::Right => 1,
        }
    }

    /// The order in which the controls are polled each frame.
    pub open spec fn polling_order() -> Seq<Direction> {
        seq![Direction::Up, Direction::Down, Direction::Left, Direction::Right]
    }

    /// The axis along which this control pushes.
    pub fn axis(self) -> (axis: Axis)
        ensures
            axis == self.axis_spec(),
    {
        match self {
            Direction::Up | Direction::Down => Axis::Y,
            Direction::Left | Direction::Right => Axis::X,
        }
    }

    /// The signed size of the push: `-1` or `+1`.
    pub fn sign(self) -> (sign: i8)
        ensures
            sign == self.sign_spec(),
    {
        match self {
            Direction::Up | Direction::Left => -1i8,
            Direction::Down | Direction::Right => 1i8,
        }
    }
}

} // verus!
