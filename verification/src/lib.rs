//! Physics and collision-resolution core of a 2D side-scrolling platformer.
//!
//! Given player input intent and a set of static and periodically-moving
//! rectangular obstacles, the library advances the player's kinematic state
//! each simulated frame and resolves interpenetration, so the player stands
//! on, is blocked by, or rides obstacles. All arithmetic is fixed-point
//! integer arithmetic (see [`num`] for the unit convention); window creation,
//! rendering and input polling are external collaborators.
pub mod geom;
pub mod laws;
pub mod map;
pub mod num;
pub mod obstacle;
pub mod physics;
pub mod player;
pub mod resolve;
pub mod step;
