//! The commands of the tool.

pub mod new;
