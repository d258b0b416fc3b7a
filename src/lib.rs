//! Per-tick simulation of a two-paddle ball game: ball kinematics, paddle
//! control (held keys or a dead-zone follower), circle/rectangle collision,
//! wall reflection and scoring.
pub mod ball;
pub mod collision;
pub mod config;
pub mod game;
pub mod paddle;
pub mod random;
pub mod score;
