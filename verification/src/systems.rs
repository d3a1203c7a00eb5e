//! Systems: per-tick logic over the movable entity registry.

pub mod blob;
