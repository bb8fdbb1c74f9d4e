//! Tasks: the processes and the threads.
pub mod exit_status;
pub mod thread;
