//! Reusable widget state types.

pub mod entry;
