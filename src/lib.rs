//! Entity-component surface state for a display-protocol server.
//!
//! Surfaces are entities of a `hecs` world. Each holds one core component
//! with its role, its double-buffered state and its ordered hook lists.
//! Commits move the pending state into the committed state; regions are
//! ordered lists of added and subtracted rectangles.

pub mod geometry;
pub mod region;
pub mod role;
pub mod surface;
pub mod ecs;
pub mod compositor;
pub mod commit;
pub mod shm;
pub mod xdg_shell;

pub use ecs::{Ecs, EntityData, TypedEntity};
