//! rs_clean: find build projects under a directory, preview what their build
//! artifacts take, and clean them with each ecosystem's own tool or by removing the
//! artifact directories. This library holds the decisions (which cleaners, which
//! directories, which paths and names are safe, how settings merge, what the user
//! selected, what was freed); the program around it does the file system, process
//! and terminal work.
pub mod cmd;
pub mod config;
pub mod constant;
pub mod report;
pub mod scan;
pub mod select;
pub mod text;
pub mod utils;
