//! Projects whose tasks all go through one line of phases.

pub mod config;
pub mod config_phases;
pub mod done;
pub mod fail;
pub mod global_config;
pub mod line_laws;
pub mod project;
