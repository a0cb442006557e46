//! Gameplay rules for a third-person capsule shooter: how input, the camera
//! and the contact state turn into the player's velocity and facing, and what
//! a shot spawns and does to the shooter.
//!
//! The rules are pure functions over snapshots. Every quantity is a
//! fixed-point integer with [`vector::UNIT`] steps per world unit, so each
//! result is exact and each contract states it to the last digit.

pub mod camera;
pub mod collision;
pub mod frame;
pub mod input;
pub mod player;
pub mod precondition;
pub mod shooting;
pub mod vector;

pub use camera::Camera;
pub use collision::{set_collisions, CollisionState, ContactEvent};
pub use frame::{tick, FrameInput, Simulation};
pub use input::{FireTrigger, Keys, Mouse};
pub use player::{direction_sync, player_movement, speed_multiplier, Player, Transform, Velocity};
pub use precondition::{expect_singleton, PreconditionError, Role, Scene};
pub use shooting::{shoot, Aim, Bullet, RecoilGate};
pub use vector::{Quat, Vec3, UNIT};
