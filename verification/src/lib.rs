//! Discovery and extraction of e-reader annotation files.
//!
//! The library models the three steps of the tool: picking the mount
//! point of the target volume out of the mounted-volume list, walking
//! a directory tree for files with the annotation extension, and
//! scanning one file's markup events for the title and body text.

pub mod extract;
pub mod finder;
pub mod prober;
