//! A harness for scenarios run against a shell-command executor: the
//! scenario's configuration, the capture of its output, and the verdict on
//! a finished run.

pub mod builder;
pub mod capture;
pub mod env;
pub mod text;
pub mod verdict;
