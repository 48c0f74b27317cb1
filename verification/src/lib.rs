//! A formatter library for C-family sources: its option model, the option
//! parser for configuration files and command lines, the console-option and
//! target-selection logic of its command line, and the line classifiers that
//! its formatting passes share.

pub mod api;
pub mod cli;
pub mod config;
pub mod formatter;
pub mod source;
pub mod text;
