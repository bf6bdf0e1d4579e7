//! Reading values and rows out of raw buffers.
pub use crate::resources::utils::{copy_buff_to_struct, copy_transmute_buff, row_parser};
