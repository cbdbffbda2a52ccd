//! The gameplay core of a side-scrolling arcade game: a flyer advances on its
//! own, the player times upward impulses to pass through rings, and every ring
//! passed counts one point.
//!
//! The library holds the decisions of the game, stated over integers: the
//! difficulty curve, the obstacle spawner and its reclamation, the background
//! tiling, the reading of contact events, and the session state machine that
//! ties them into one tick. Rendering, input devices and the rigid-body solver
//! stay outside: the caller feeds each tick what the solver observed and
//! carries out the actions that the tick hands back.

pub mod background;
pub mod bird;
pub mod camera;
pub mod collision;
pub mod difficulty;
mod filtering;
pub mod obstacles;
mod random;
pub mod score;
pub mod screen;
pub mod session;
pub mod state;
pub mod world;
