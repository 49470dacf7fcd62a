//! The deciding core of a directory-copy command.
//!
//! A front end asks for one operation: copy the contents of a source directory
//! into a destination directory, merging with what is already there and
//! replacing files whose paths collide. This crate holds everything about that
//! operation that is a decision rather than a disk access: which options the
//! copy runs with, whether a copy that reported no failure stands, how a
//! failure is classified, and what the caller is told.
//! The disk access itself belongs to the program that embeds the crate.

pub mod clash;
pub mod command;
pub mod failure;
pub mod options;
