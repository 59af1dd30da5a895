//! Core simulation logic of a 2D tile-based platformer: grounding detection,
//! gravity and movement integration, a freeze/unfreeze controller that pauses
//! the physics simulation, weapon aiming under clamped angular limits,
//! projectile firing, and projectile/terrain collision resolution with
//! area-of-effect tile removal.
//!
//! All world quantities are held in fixed-point integers: positions, lengths
//! and speeds in micro-units (one world unit is 1_000_000 subunits), angles in
//! millidegrees, time in milliseconds. The surrounding engine (rendering,
//! asset loading, the window loop) converts at the boundary.

pub mod character;
pub mod combat;
pub mod effects;
pub mod game_state;
pub mod grounding;
pub mod map;
pub mod movement;
pub mod physics;
pub mod player;
pub mod rigid_body;
pub mod vec2;

pub use vec2::Vec2I;
