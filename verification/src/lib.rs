//! Per-frame physics, collision and pose-synthesis core for a 2D
//! side-scrolling action-game character.
//!
//! All geometry is carried in fixed-point arithmetic: an `i64` counts
//! 1/10000ths of a world unit (see [`fx::FX_ONE`]), so every quantity the
//! engine computes is exact integer arithmetic and free of rounding
//! surprises between machines.

pub mod anims;
pub mod soldier;
pub mod control;
pub mod fx;
pub mod mapfile;
pub mod parts;
pub mod state;
pub mod vec2;
pub mod weapons;
