//! A minimal 2D arena simulation core: a typed component registry, a
//! deterministic world bootstrap, and a per-tick movement system that keeps
//! the player-controlled blob inside the playable bounds.
//!
//! All geometry is fixed point: positions are stored in subunits of
//! `1 / POS_SCALE` of a world unit, so every constant of the world (bounds,
//! blob size, displacement per tick) is exact integer data.

pub mod blob_world;
pub mod systems;
