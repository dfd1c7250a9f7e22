//! Rules of a brick-breaker game: bricks and their durability, scoring with
//! combo multipliers, level layouts, the discrete game state machine and the
//! collision decisions that do not depend on geometry.
//!
//! Geometry and kinematics (positions, velocities, sizes) are real-valued and
//! live with the program that draws the game; this crate decides what happens
//! once the geometric questions have been answered.

pub mod brick;
pub mod collision;
pub mod game_state;
pub mod input;
pub mod level;
pub mod scoring;
