//! Cataloguing of raster images: what an image file is, which colours
//! dominate it, and how a catalogue is rendered as a JSON document.
//!
//! The library computes on plain values. Reading directories and files and
//! writing the document are left to the caller.

pub mod commands;
pub mod models;
pub mod utils;
