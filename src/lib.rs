//! Radar animation pipeline: time windows of radar snapshots, a local
//! snapshot cache policy, per-pixel compositing onto a base map, and the
//! assembly of the animated artifact.

pub mod error;
pub mod image_meta;
pub mod window;
pub mod acquire;
pub mod compose;
pub mod engine;
