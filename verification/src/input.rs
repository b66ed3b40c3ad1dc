//! The keys that were pressed since the last frame.

use vstd::prelude::*;
use crate::grid::Direction;

verus! {

/// One flag for each key that the game listens to: set when the key went
/// down since the last frame, not while it is held.
#[derive(Copy, Clone, PartialEq, Eq, Debug, Structural)]
pub struct Input {
    pub up: bool,
    pub down: bool,
    pub left: bool,
    pub right: bool,
    pub w: bool,
    pub a: bool,
    pub s: bool,
    pub d: bool,
    pub r: bool,
    pub m: bool,
    pub minus: bool,
    pub equal: bool,
    pub left_bracket: bool,
    pub right_bracket: bool,
    pub enter: bool,
    pub escape: bool,
}

impl Default for Input {
    /// No key was pressed.
    fn default() -> (r: Input)
        ensures
            r == Input::idle(),
    {
        Input {
            up: false,
            down: false,
            left: false,
            right: false,
            w: false,
            a: false,
            s: false,
            d: false,
            r: false,
            m: false,
            minus: false,
            equal: false,
            left_bracket: false,
            right_bracket: false,
            enter: false,
            escape: false,
        }
    }
}

impl Input {
    /// The input in which no key was pressed.
    pub open spec fn idle() -> Input {
        Input {
            up: false,
            down: false,
            left: false,
            right: false,
            w: false,
            a: false,
            s: false,
            d: false,
            r: false,
            m: false,
            minus: false,
            equal: false,
            left_bracket: false,
            right_bracket: false,
            enter: false,
            escape: false,
        }
    }

    /// The direction that the movement keys ask for, if any was pressed. The
    /// arrow keys and W, S, A, D count alike; where several were pressed, up
    /// goes before down, down before left, and left before right.
    pub open spec fn spec_direction(self) -> Option<Direction> {
        if self.up || self.w {
            Some(Direction::Up)
        } else if self.down || self.s {
            Some(Direction::Down)
        } else if self.left || self.a {
            Some(Direction::Left)
        } else if self.right || self.d {
            Some(Direction::Right)
        } else {
            None
        }
    }

    #[verifier::when_used_as_spec(spec_direction)]
    pub fn direction(self) -> (r: Option<Direction>)
        ensures
            r == self.spec_direction(),
    {
        if self.up || self.w {
            Some(Direction::Up)
        } else if self.down || self.s {
            Some(Direction::Down)
        } else if self.left || self.a {
            Some(Direction::Left)
        } else if self.right || self.d {
            Some(Direction::Right)
        } else {
            None
        }
    }
}

} // verus!
