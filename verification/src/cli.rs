pub mod args;
pub mod env_file;
pub mod exit_status;
pub mod job;
pub mod menu;
pub mod numbers;
pub mod output;
pub mod ui;
