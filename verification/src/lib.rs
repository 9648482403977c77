//! Planning and decision logic of a block-device chaos experiment runner.
//!
//! The library decides which commands are issued, in which order, and how
//! their outcomes are turned into results; the program around it performs
//! the commands and reports back.

pub mod command;
pub mod domain;
pub mod implementation;
pub mod text;
