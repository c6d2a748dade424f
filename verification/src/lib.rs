//! Entity simulation engine for a 2D arcade shooter: axis-aligned kinematic
//! bodies clamped against a viewport, a closed set of entity variants
//! (player, enemy, bullet), and the per-frame update / collision /
//! compaction / render pipeline that drives them.

pub mod bullet;
pub mod enemy;
pub mod entity;
pub mod player;
pub mod rng;
pub mod sim;
pub mod texture;
