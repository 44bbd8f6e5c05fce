//! What the renderer draws: vertices, the meshes built from them, and the
//! shapes that come ready-made.

pub mod geometry;
pub mod shapes;
