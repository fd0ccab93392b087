//! The commands that a user can give.

pub mod add;
pub mod add_batch;
pub mod batch_laws;
pub mod block;
pub mod blocked;
pub mod close;
pub mod config;
pub mod fail;
pub mod fail_laws;
pub mod hook;
pub mod hook_laws;
pub mod init;
pub mod launch;
pub mod lock;
pub mod phase;
pub mod project;
pub mod project_laws;
pub mod refusal_laws;
pub mod remove;
pub mod report;
pub mod runner;
pub mod runner_laws;
pub mod self_update;
pub mod settings_laws;
pub mod setup_laws;
pub mod shown_laws;
pub mod skill;
pub mod status;
pub mod status_laws;
pub mod task_command_laws;
pub mod todo;
pub mod todo_laws;
pub mod unblock;
pub mod unlock;
pub mod update;
pub mod wording_laws;
pub mod workflow;
