//! What the library does as a whole.

pub mod generate;
