pub mod bridge;
pub mod model;
pub mod render;
pub mod semantics;
pub mod transform;

pub use bridge::derive_from;
