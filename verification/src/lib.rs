//! The decision core of `slap`, a command-line tool that creates files and
//! directories, optionally under a fresh temporary directory, and optionally
//! opens what it created.
//!
//! Nothing in this crate touches the filesystem, the environment or a process.
//! Every function maps plain values to plain values: which entries to create,
//! where and in what order, what to print, what to warn about and what to
//! launch. A thin front end reads the outside world, carries the decisions
//! out, and hands the outcomes back.

pub mod cli;
pub mod config;
pub mod create;
pub mod open;
pub mod path;
pub mod run;
