//! Helpers for reading text resources row by row.
pub mod utils;
