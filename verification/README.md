# agira

Agira keeps the tasks of a project and moves each of them through the phases of a workflow. A
person or an agent asks for the next task, does what its phase asks for, and records an artifact;
the task then moves on. Runners take tasks under leases, hooks run when a task enters a phase, and
the settings of a user and of a project say which phases there are.

The library is written in Verus. What it decides, it decides on plain values: a command takes what
was read from the files and returns what is to be written, said and run, and its contract says
exactly which.

## Layout

- `src/engine/` holds tasks, configurations, settings, hooks, leases, and the choice of the next
  task.
- `src/engine/task_laws.rs` states what every change of the tasks keeps. The laws of the other
  modules stand beside the functions that they are about. All of them are named `law_…`.
- `src/commands/` holds one module for each command.
- `src/linear/` holds the commands for projects whose phases stand in one line.
- `src/json_doc.rs` and `src/toml_doc.rs` are the way to `serde_json` and `toml`, and
  `src/time.rs` the way to `chrono`. What is believed of those crates, and of `sha2` in
  `src/engine/project.rs`, is said there.
- The other files of `src/` hold texts, maps, tables and orders.
- `app/` reads and writes files, talks to the terminal multiplexer and to the network, and prints.
- `tests/` runs the library.
