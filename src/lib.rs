//! Ballistic trajectory simulation in fixed-point arithmetic: explicit
//! Euler integration under gravity and quadratic air drag, with a
//! collision query along every step, and the gameplay decisions around a
//! shot.
pub mod arith;
pub mod bounds;
pub mod config;
pub mod debug;
pub mod fire;
pub mod model;
pub mod step;
pub mod trajectory;
pub mod vector;
pub mod weapon;
