//! A verified core for rendering building-footprint polygons into a 2-D map
//! viewport.
//!
//! The pipeline turns a viewport (center, zoom, window size) into a renderable
//! triangle mesh: the viewport is projected to a bounding box, a spatial range
//! query selects the features whose bounding rectangles intersect it, each
//! feature's coordinate event stream is assembled into projected polygon
//! paths, the paths are triangulated by ear clipping, and the per-polygon
//! triangles are concatenated into one combined vertex/index buffer. A small
//! debouncing state machine decides when rapid pan/zoom input has settled
//! enough to trigger a reload.
//!
//! All coordinates are fixed-point: a caller chooses a scale (for example
//! 10^-8 of a degree per unit) and hands every coordinate, resolution and
//! offset to the library as `i64` multiples of that unit.

pub mod assemble;
pub mod debounce;
pub mod earclip;
pub mod error;
pub mod geom;
pub mod mesh;
pub mod pipeline;
pub mod query;
pub mod viewport;
