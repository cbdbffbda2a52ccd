//! The two switches of the game: whether a session is running, and whether
//! the game is paused. They are independent: pausing freezes the simulation
//! and never ends a session.

use vstd::prelude::*;

verus! {

/// The state of the session.
#[derive(Clone, Copy, Debug, PartialEq, Eq, Hash, Structural)]
pub enum GameState {
    /// A session is under way.
    Running,
    /// The session is over; the next tick starts a new one.
    Ended,
}

/// Whether the game is paused.
#[derive(Clone, Copy, Debug, PartialEq, Eq, Structural)]
pub struct PauseState(pub bool);

/// The factor by which simulated time advances: zero while paused, one
/// otherwise.
pub open spec fn time_scale_for(paused: bool) -> u32 {
    if paused {
        0
    } else {
        1
    }
}

/// The pause flag after the pause command has been read: flipped if the
/// command was given, unchanged if not.
pub open spec fn pause_after(paused: bool, pressed: bool) -> bool {
    paused != pressed
}

/// Whether the game is paused.
pub fn is_paused(pause_state: &PauseState) -> (paused: bool)
    ensures
        paused == pause_state.0,
{
    pause_state.0
}

/// Reads the pause command. When it was given, the pause flag is flipped and
/// the new time scale of the simulation is returned: zero when the game is
/// now paused, one when it runs again. When it was not given, nothing
/// changes and nothing is returned.
pub fn toggle_pause(pause_state: &mut PauseState, pressed: bool) -> (time_scale: Option<u32>)
    ensures
        final(pause_state).0 == pause_after(old(pause_state).0, pressed),
        time_scale == if pressed {
            Some(time_scale_for(!old(pause_state).0))
        } else {
            None
        },
{
    if pressed {
        pause_state.0 = !pause_state.0;
        Some(if pause_state.0 { 0 } else { 1 })
    } else {
        None
    }
}

/// Giving the pause command twice leaves the game as it was, and while the
/// game is paused simulated time stands still.
pub proof fn law_pause_toggles(paused: bool)
    ensures
        pause_after(pause_after(paused, true), true) == paused,
        pause_after(paused, false) == paused,
        time_scale_for(true) == 0,
        time_scale_for(false) == 1,
{
}

} // verus!
