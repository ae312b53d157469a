//! Spell state machines.
//!
//! Four spell variants share one hit-resolution protocol: the melee swing,
//! the beam, the bullet spray and the fireball with its secondary shards.
//! Each variant is a per-effect-entity component advanced once per tick;
//! the hitbox module routes collision contacts back to the owning effect
//! entity.

pub mod basic_attack;
pub mod beam;
pub mod bullets;
pub mod fire_ball;
pub mod hitbox;
