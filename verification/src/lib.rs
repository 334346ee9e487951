//! A small persistence utility: a store resolves a per-application data
//! directory once, then loads and saves structured values in named files
//! under that directory, tolerating missing or corrupt content by falling
//! back to a default or caller-supplied value.

pub mod codec;
pub mod errors;
pub mod ron_codec;
pub mod store;
