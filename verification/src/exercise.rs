//! Exercises: assignments and what was handed in for them.

pub mod assignment;
pub mod submission;
