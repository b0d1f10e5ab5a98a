//! Rendering backend for an immediate-mode UI layout engine.
//!
//! The library owns the logic a layout engine needs from a renderer:
//! rasterizing single glyphs into byte bitmaps, reporting normalized glyph
//! and image metrics, and turning draw requests into an explicit list of
//! GPU commands that a thin shell submits to the actual device.

pub mod backend;
pub mod font;
pub mod frac;
pub mod frame;
pub mod input;
pub mod raster;
pub mod transform;
