//! Git as this library sees it: command lines to run, and what to make of
//! their output.

pub mod commands;
pub mod sparse;
