//! The dimensions of the play field, in world units (one unit is one pixel at
//! the default zoom). Positions that the solver reports are 32-bit; positions
//! that the game derives from them are kept in 64 bits, so that adding a
//! margin to an observed position never overflows.

use vstd::prelude::*;

verus! {

/// Width of the visible play field.
pub const SCREEN_WIDTH: i64 = 1280;

/// Height of the visible play field.
pub const SCREEN_HEIGHT: i64 = 720;

/// Half of [`SCREEN_WIDTH`]: the distance from the flyer to either screen edge.
pub const HALF_SCREEN_WIDTH: i64 = 640;

/// Half of [`SCREEN_HEIGHT`]: the distance from the centre line to the upper
/// and lower edge.
pub const HALF_SCREEN_HEIGHT: i64 = 360;

} // verus!
