//! The decision-making core of a small real-time renderer.
//!
//! The window, the GPU and the disk are driven by the program that links this
//! library. What lives here is everything that program has to get right
//! without looking at a screen: how a fetched file becomes shader text or a
//! decoded image, when a frame has to wait and for how long, how the logical
//! clock advances, and when the pieces of a mesh add up to something that can
//! be drawn.

pub mod loading;
pub mod rendering;
pub mod timing;
