//! The exports of an image, by name.
pub mod export_table;
