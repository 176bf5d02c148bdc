//! bang is a parallel command runner: it starts the commands that its
//! configuration lists and lets the user swap between the output of each.
//!
//! This crate holds the decisions of bang: which key does what, where the
//! configuration lives, how a configured command is turned into a program,
//! its arguments and its working directory, and the path arithmetic that
//! these need. Terminal drawing, files and processes are left to the caller.

pub mod actions;
pub mod application;
pub mod cli;
pub mod command;
pub mod config;
pub mod help;
pub mod paths;
