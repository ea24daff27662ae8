//! Converts a journal export into a static-site content tree: one markdown
//! document per entry, with photo placeholders rewritten to local filenames.
//! The library computes every name, path and document as a plain value; the
//! surrounding binary performs the filesystem work.
pub mod convert;
pub mod laws;
pub mod model;
pub mod stamp;
pub mod text;
