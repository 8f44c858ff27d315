//! Rasterizes SVG documents to PNG buffers through the `resvg` rendering
//! library. The logic owned here is the resolution of the output raster
//! size from competing sizing directives, a small named-and-hex color
//! parser for the background fill, and the assembly of the per-call font
//! database from its several sources.

pub mod backend;
pub mod color;
pub mod dims;
pub mod options;
pub mod png_header;
pub mod render;
