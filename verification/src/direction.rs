use vstd::prelude::*;

verus! {

/// Which way a controlled quantity is currently moving.
#[derive(PartialEq, Eq, Structural, Debug, Clone, Copy)]
pub enum Direction {
    Inc,
    Dec,
    Idle,
}

impl Direction {
    /// The sign of the motion: `1` when increasing, `-1` when decreasing, `0` at rest.
    pub open spec fn sign_of(self) -> int {
        match self {
            Direction::Inc => 1,
            Direction::Dec => -1,
            Direction::Idle => 0,
        }
    }

    /// The sign of the motion as a machine integer.
    pub fn sign(&self) -> (s: i8)
        ensures
            s == self.sign_of(),
    {
        match self {
            Direction::Inc => 1,
            Direction::Dec => -1,
            Direction::Idle => 0,
        }
    }

    /// `rate` units per second in the direction of motion.
    pub fn scaled(&self, rate: i32) -> (r: i32)
        requires
            rate >= -i32::MAX,
        ensures
            r == self.sign_of() * rate,
    {
        match self {
            Direction::Inc => rate,
            Direction::Dec => -rate,
            Direction::Idle => 0,
        }
    }
}

} // verus!
