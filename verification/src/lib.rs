//! A minimal scene-graph core for a real-time rendering scaffold.
//!
//! The library owns the transform nodes of a scene (an append-only,
//! deduplicated store), associates entities with their nodes through a
//! fluent builder, and carries the packed background color that a
//! renderer clears the screen with.

pub mod color;
pub mod ecs;
pub mod node;
pub mod scene;
pub mod transform;

pub use color::Color;
pub use ecs::EntityRef;
pub use node::{Node, NodeRef};
pub use scene::{ObjectBuilder, Scene};
pub use transform::{Quat, Transform, Vec3};
