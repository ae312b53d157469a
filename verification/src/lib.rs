//! Real-time combat and movement core of a 2D action game.
//!
//! The library models, on plain integer values, how living entities move
//! with eased acceleration, how spells are cast and tick, how transient
//! hitbox volumes route collision contacts to the entity that owns them,
//! how damage and knockback are applied, and how proximity interaction is
//! tracked.  Geometry is fixed-point: a unit vector has components scaled
//! by 1000, time is counted in milliseconds.
//!
//! The `world` module owns the entity table and runs one logical frame at
//! a time: movement (`living_entity`, over the `ease` curve), skill
//! reloads (`skills`), the four spell state machines (`spell`), hitbox
//! upkeep (`spell::hitbox`) and the deferred-destruction boundary.  The
//! physics, rendering and input collaborators stay outside: they feed
//! collision and cast events in and read velocities and cosmetic state
//! out.  Proximity interaction (`interaction`), dialog navigation
//! (`ui_dialog`), the experience purse (`xp`) and the head quarter shop
//! (`head_quarter`) ride on the same primitives.

pub mod ease;
pub mod geom;
pub mod head_quarter;
pub mod health;
pub mod interaction;
pub mod living_entity;
pub mod player;
pub mod rng;
pub mod skills;
pub mod spell;
pub mod timer;
pub mod trig;
pub mod ui_dialog;
pub mod world;
pub mod xp;
