//! Scans a music library: decides which files are candidates, turns the
//! output of a tag reader into catalog records, names cover images by
//! content, and collects the records of one scan while isolating the
//! failures of single files.

pub mod hash;
pub mod cover;
pub mod extension;
pub mod metadata;
pub mod scan;
