//! The flyer: the one body that the player steers.
//!
//! Its position and velocity belong to the rigid-body solver; the game keeps
//! the last position that the solver reported, and the flag that says whether
//! the flyer is still alive. A dead flyer keeps falling, but it answers no
//! command and touches nothing.

use vstd::prelude::*;
use crate::screen::HALF_SCREEN_HEIGHT;
use crate::state::GameState;

verus! {

/// The upward impulse of one jump. The flyer's vertical velocity is cleared
/// before the impulse is applied, so that every jump lifts it alike.
pub const JUMP_IMPULSE: i64 = 50;

/// Radius of the flyer's collider.
pub const BIRD_RADIUS: i64 = 25;

/// Width of the flyer as it is drawn.
pub const BIRD_WIDTH: i64 = 100;

/// Height of the flyer as it is drawn.
pub const BIRD_HEIGHT: i64 = 50;

/// The constant force that drives the flyer to the right.
pub const BIRD_THRUST: i64 = 5;

/// How strongly the flyer bounces off what it hits.
pub const BIRD_RESTITUTION: i64 = 2;

/// How far beyond the upper or lower screen edge the flyer may stray before
/// the session ends.
pub const OUT_OF_BOUNDS_MARGIN: i64 = 50;

/// The flyer.
#[derive(Clone, Copy, Debug, PartialEq, Eq, Structural)]
pub struct Bird {
    /// Whether the flyer is alive. It is set once, when the flyer is killed,
    /// and never cleared within a session.
    pub alive: bool,
    /// Horizontal position, as the solver last reported it.
    pub x: i32,
    /// Vertical position, as the solver last reported it.
    pub y: i32,
}

/// The flyer as every session begins with it: alive and at the origin.
pub open spec fn fresh_bird() -> Bird {
    Bird { alive: true, x: 0, y: 0 }
}

/// The flyer after a lethal contact: dead, and where it was.
pub open spec fn killed(bird: Bird) -> Bird {
    Bird { alive: false, x: bird.x, y: bird.y }
}

/// The flyer at height `y` has left the play field: it is beyond the upper or
/// the lower screen edge by more than the margin.
pub open spec fn out_of_bounds(y: int) -> bool {
    y < -HALF_SCREEN_HEIGHT - OUT_OF_BOUNDS_MARGIN || y > HALF_SCREEN_HEIGHT + OUT_OF_BOUNDS_MARGIN
}

impl Bird {
    /// Whether the flyer takes part in collisions: it does while it is alive.
    pub fn collides(&self) -> (collides: bool)
        ensures
            collides == self.alive,
    {
        self.alive
    }
}

/// The flyer at the start of a session.
pub fn setup_bird() -> (bird: Bird)
    ensures
        bird == fresh_bird(),
{
    Bird { alive: true, x: 0, y: 0 }
}

/// The upward impulse that the jump command gives the flyer, if any: the jump
/// impulse when the command was given and the flyer is alive.
pub open spec fn jump_impulse(bird: Bird, pressed: bool) -> Option<i64> {
    if pressed && bird.alive {
        Some(JUMP_IMPULSE)
    } else {
        None
    }
}

/// Reads the jump command: the flyer jumps when the command was given and it
/// is alive. A dead flyer answers no command. Returns the upward impulse to
/// apply, once the flyer's vertical velocity has been cleared.
pub fn jump_on_space(bird: &Bird, pressed: bool) -> (impulse: Option<i64>)
    ensures
        impulse == jump_impulse(*bird, pressed),
{
    if !pressed {
        return None;
    }
    if !bird.alive {
        return None;
    }
    Some(JUMP_IMPULSE)
}

/// Kills the flyer: it is no longer alive and takes no further part in
/// collisions. Killing a dead flyer changes nothing.
pub fn kill_bird_on_collision(bird: &mut Bird)
    ensures
        *final(bird) == killed(*old(bird)),
{
    bird.alive = false;
}

/// Ends the session when the flyer has left the play field: returns the state
/// to enter, if any.
pub fn end_on_bird_leaves_screen(bird: &Bird) -> (next: Option<GameState>)
    ensures
        next == if out_of_bounds(bird.y as int) {
            Some(GameState::Ended)
        } else {
            None::<GameState>
        },
{
    let bird_y: i64 = bird.y as i64;
    if bird_y < -HALF_SCREEN_HEIGHT - OUT_OF_BOUNDS_MARGIN || bird_y > HALF_SCREEN_HEIGHT
        + OUT_OF_BOUNDS_MARGIN {
        Some(GameState::Ended)
    } else {
        None
    }
}

/// Death is final and happens once: a flyer that has been killed is dead, and
/// killing it again changes nothing.
pub proof fn law_kill_idempotent(bird: Bird)
    ensures
        !killed(bird).alive,
        killed(killed(bird)) == killed(bird),
{
}

} // verus!
