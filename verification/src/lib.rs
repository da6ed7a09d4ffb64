//! Falling words: text labels that fall and collide as rigid bodies.
//!
//! The library keeps an insertion-ordered store of word boxes in step with a
//! rigid-body world, advances that world one fixed timestep per tick, copies
//! each body's pose back into its word box, and walks the drawing transaction
//! of every word in order.
//!
//! Numbers of the physics world are carried by their bit patterns and never
//! computed with: a caller that thinks in left and bottom edges, widths and
//! heights converts to centres and half extents before it calls, and back
//! before it draws.

pub mod body;
pub mod engine;
pub mod geometry;
pub mod handle;
pub mod laws;
pub mod render;
pub mod scalar;
pub mod settings;
pub mod universe;
pub mod wall;
pub mod word;
pub mod world;

pub use geometry::GeometryError;
pub use render::{DrawCursor, DrawOp, DrawStep};
pub use scalar::Scalar;
pub use settings::StepSettings;
pub use universe::Universe;
pub use wall::Wall;
pub use word::WordBox;
pub use world::PhysicsWorld;
