//! A 2D smoothed-particle-hydrodynamics (SPH) simulation core for a sailing
//! scene: water and air particles coupled with spring-bonded solid structures
//! (hull, sail, mast), advanced one frame at a time by a fixed sequence of
//! compute passes (spatial hashing, counting sort, density/pressure, forces,
//! bond solving, integration).
//!
//! All physical quantities are carried in a saturating fixed-point integer
//! representation (see [`fixed`]), so every pass is a total function over
//! machine integers and its exact result can be stated and proved.

pub mod bonds;
pub mod density;
pub mod fixed;
pub mod forces;
pub mod grid;
pub mod input;
pub mod integrate;
pub mod physics_config;
pub mod resources;
pub mod scenarios;
pub mod setup;
pub mod simulation;
