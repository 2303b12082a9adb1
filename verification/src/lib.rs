//! An immediate-mode triangle-batch renderer for tiled-map UI elements.
//!
//! The [`renderer::Renderer`] accumulates flat-coloured rectangles and beveled
//! "tiles" as triangles, remapping every shape from world space into a
//! caller-chosen viewport window of normalized space, and packs the whole
//! batch into the exact interleaved byte layout a GPU vertex buffer expects.
//! The GPU binding itself is left to the embedding application; this crate
//! holds the geometry construction, normalization, batching and serialization,
//! each with a contract that pins down the result.

pub mod frame;
pub mod geom;
pub mod laws;
pub mod renderer;
pub mod scalar;
