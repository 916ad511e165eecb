//! Helpers shared by the models and the commands.

pub mod json;
pub mod path;
pub mod text;
pub mod write_json;
