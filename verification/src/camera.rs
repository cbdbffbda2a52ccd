//! The camera and the two bounds of the play field, which both follow the
//! flyer along the horizontal axis.

use vstd::prelude::*;
use crate::bird::Bird;
use crate::screen::{HALF_SCREEN_HEIGHT, HALF_SCREEN_WIDTH};

verus! {

/// Half-width of each bound's collider.
pub const BOUND_HALF_WIDTH: i64 = 1280;

/// Half-height of each bound's collider.
pub const BOUND_HALF_HEIGHT: i64 = 10;

/// Height at which the upper bound lies.
pub const UPPER_BOUND_Y: i64 = HALF_SCREEN_HEIGHT;

/// Height at which the lower bound lies.
pub const LOWER_BOUND_Y: i64 = -HALF_SCREEN_HEIGHT;

/// The camera: only its horizontal position matters to the game.
#[derive(Clone, Copy, Debug, PartialEq, Eq, Structural)]
pub struct Camera {
    pub x: i32,
}

/// The pair of colliders that close the play field above and below. They
/// share one horizontal position.
#[derive(Clone, Copy, Debug, PartialEq, Eq, Structural)]
pub struct Bounds {
    pub x: i64,
}

/// The camera as the game starts with it: at the origin.
pub fn setup_camera() -> (camera: Camera)
    ensures
        camera.x == 0,
{
    Camera { x: 0 }
}

/// Returns the camera to the origin, as every new session requires.
pub fn reset_camera(camera: &mut Camera)
    ensures
        final(camera).x == 0,
{
    camera.x = 0;
}

/// Moves the camera to the flyer's horizontal position.
pub fn camera_follows_bird(camera: &mut Camera, bird: &Bird)
    ensures
        final(camera).x == bird.x,
{
    camera.x = bird.x;
}

/// The bounds as every session begins with them: at the origin.
pub fn setup_bounds() -> (bounds: Bounds)
    ensures
        bounds.x == 0,
{
    Bounds { x: 0 }
}

/// Moves the bounds along with the flyer: they are kept half a screen width
/// behind it.
pub fn bounds_follow_bird(bounds: &mut Bounds, bird: &Bird)
    ensures
        final(bounds).x == bird.x - HALF_SCREEN_WIDTH,
{
    bounds.x = bird.x as i64 - HALF_SCREEN_WIDTH;
}

} // verus!
