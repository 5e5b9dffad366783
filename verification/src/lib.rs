//! A loader of detection rules.
//!
//! Rule files are found by walking a directory tree, each file is parsed into its rule
//! documents, and every document passes an admission filter that looks at its
//! identifier, its status and its severity level. The loader keeps the admitted rules
//! in the order they were found, and counts what it turned away and why.
//!
//! The tree is handed to the loader as plain values (`walk::FsNode`), so that every
//! decision of the walk is a function of its arguments. `yaml::ParseYaml` is the
//! loader, `walk` holds the walk, `admission` the filter.

pub mod admission;
pub mod config;
pub mod document;
pub mod level;
pub mod notice;
pub mod tables;
pub mod text;
pub mod walk;
pub mod yaml;
