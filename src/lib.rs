//! Rendering front end for SVG scenes: chooses and prepares the initial
//! pixel buffer, rasterizes a parsed scene onto it and encodes the result as PNG.

pub mod background;
pub mod error;
pub mod fonts;
pub mod pixmap;
pub mod render;
pub mod scene;
pub mod transform;
