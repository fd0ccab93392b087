//! The state of a project and the rules that govern it.

pub mod advance;
pub mod change_laws;
pub mod config;
pub mod config_laws;
pub mod file_lock;
pub mod global_config;
pub mod hooks;
pub mod orchestrator;
pub mod pick;
pub mod pick_laws;
pub mod project;
pub mod prompt_laws;
pub mod runner;
pub mod task_laws;
pub mod tasks;
