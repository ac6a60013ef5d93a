//! The camera: placed at the window's centre, and a switch for whether it
//! should track the player.

use vstd::prelude::*;

use crate::geometry::{Vec2, Window};

verus! {

/// Whether the camera follows the player's position.
#[derive(Clone, Copy, Debug, PartialEq, Eq, Structural)]
pub struct CameraFollowPlayer(pub bool);

/// Place the camera at the window's centre.
pub fn spawn_camera(window: &Window) -> (c: Vec2)
    requires
        window.well_formed(),
    ensures
        c == window.spec_center(),
{
    window.center()
}

} // verus!
