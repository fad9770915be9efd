//! Plain-text output of the command line.

pub mod inbox;
pub mod inbox_item;
