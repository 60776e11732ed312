//! Domain records of a pomodoro timer: tasks, completed timer sessions and
//! the user's timer settings, together with the declared database schema
//! migrations.
pub mod migration;
pub mod session;
pub mod settings;
pub mod task;
