//! Section headers and section tables, owned or borrowed from the image bytes.
pub mod section_header;
pub mod section_table;
