//! Frame planning for a ray-traced diffuse global-illumination pipeline.
//!
//! The crate decides, for each frame, which images exist, which passes run,
//! what every pass reads and writes, and which of the two images of a
//! temporal pair is written and which is read. It records those decisions in
//! a [`graph::RenderGraph`], which a GPU back end then carries out.

pub mod image;
pub mod lut;
pub mod graph;
pub mod pass;
pub mod temporal;
pub mod rtdgi;
pub mod frame;
