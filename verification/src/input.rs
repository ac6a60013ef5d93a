//! The slice of keyboard state the game rules read: the held movement keys
//! and the sprint modifier. Each movement direction answers to an arrow key
//! and to a letter key alike.

use vstd::prelude::*;

verus! {

/// Held keys sampled by the host for one frame.
#[derive(Clone, Copy, Debug, PartialEq, Eq, Structural, Default)]
pub struct Keyboard {
    pub arrow_up: bool,
    pub key_w: bool,
    pub arrow_left: bool,
    pub key_a: bool,
    pub arrow_down: bool,
    pub key_s: bool,
    pub arrow_right: bool,
    pub key_d: bool,
    pub shift_left: bool,
}

impl Keyboard {
    pub open spec fn up(self) -> bool {
        self.arrow_up || self.key_w
    }

    pub open spec fn left(self) -> bool {
        self.arrow_left || self.key_a
    }

    pub open spec fn down(self) -> bool {
        self.arrow_down || self.key_s
    }

    pub open spec fn right(self) -> bool {
        self.arrow_right || self.key_d
    }
}

} // verus!
