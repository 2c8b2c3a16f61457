use vstd::prelude::*;

verus! {

/// Side of the character on which a wall is touched.
#[derive(Clone, Copy, PartialEq, Eq, Debug, Structural)]
pub enum WallSide {
    Left,
    Right,
}

/// Horizontal unit direction in which pushing off a wall on `side` sends the
/// character: away from the wall.
pub open spec fn push_direction(side: WallSide) -> int {
    match side {
        WallSide::Left => 1,
        WallSide::Right => -1,
    }
}

impl WallSide {
    /// Sign of the horizontal push away from this wall: pushing off a left
    /// wall sends the character right (`1`), off a right wall left (`-1`).
    pub fn direction(self) -> (d: i8)
        ensures
            d == push_direction(self),
    {
        match self {
            WallSide::Left => 1,
            WallSide::Right => -1,
        }
    }
}

} // verus!
