//! Locating a dotenv file by walking up from a directory, and the errors
//! that the search and the later loading steps report.
//!
//! The library decides; it performs no input or output. Paths are held as
//! text, and what the file system answered is handed in as plain values.

pub mod errors;
pub mod find;
pub mod path;
pub mod search;
pub mod text;
