//! Task tracking for projects that are worked on by agents.

pub mod commands;
pub mod duplicate;
pub mod engine;
pub mod json_doc;
pub mod linear;
pub mod rows;
pub mod sorting;
pub mod string_map;
pub mod text;
pub mod text_laws;
pub mod text_set;
pub mod time;
pub mod toml_doc;
pub mod topo;
