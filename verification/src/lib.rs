//! Typed access to a database of localized game dialogue, and a scene
//! randomizer that recasts the speakers of a scene.

pub mod api;
pub mod laws;
pub mod pick;
pub mod rand;
pub mod recast;
