//! Finds the alternate of a source file: the test file of an implementation
//! file, or the implementation file of a test file.
//!
//! Each filetype has a rule of two regular expressions. One tells test files
//! from the others; the other cuts a search key out of a file name. The key is
//! handed to a fuzzy matcher outside this library, and the matcher's ranked
//! output is scanned for the first file of the opposite kind.

pub mod alternate;
pub mod cli;
pub mod config;
pub mod lines;
pub mod pattern;
