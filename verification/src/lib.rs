//! Run cron jobs manually.
//!
//! The library turns the text of a crontab into a model of its jobs, and a
//! chosen job into the shell invocation that runs it.
//!
//! - [`parser::Parser::parse`] turns the text of a crontab into
//!   [`tokens::Token`]s; [`crontab::grammar`] says which.
//! - [`crontab::Crontab`] takes the tokens. It lists the jobs, finds one by
//!   its number, its fingerprint or its tag, and prepares its run: the
//!   shell, the working directory and the variables that the crontab sets
//!   above the job.
//! - [`crontab::hash::djb2`] is the hash behind a job's fingerprint.
//! - [`crontab::laws`] holds what is true of every crontab.
//! - [`cli`] holds the rules of the command line: its arguments, the menu
//!   of the jobs, the user's answer to it and the exit status.
//!
//! Nothing here reads a file, starts a process or looks at the
//! environment: the program around the library does, and hands over what it
//! found.

pub mod cli;
pub mod crontab;
pub mod ui;

pub use crontab::parser;
pub use crontab::reader;
pub use crontab::tokens;
