//! What the library knows of an image.

pub mod image;
pub mod pixels;
