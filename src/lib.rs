//! Converts an RGBA raster into a grid of game tile ids by classifying each
//! pixel's color against a palette.
pub mod tile;
pub mod color;
pub mod classify;
pub mod raster;
pub mod grid;
