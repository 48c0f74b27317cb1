//! Formatter settings and the option syntax that sets them.

pub mod actions;
pub mod apply;
pub mod batch_laws;
pub mod copy_laws;
pub mod indent_laws;
pub mod lexer_laws;
pub mod grammar;
pub mod options;
pub mod parser;
pub mod parser_laws;
pub mod setters;
pub mod style_laws;
pub mod tables;
pub mod values;
pub mod values_parse;

pub use options::{
    BraceStyle, FormatOptions, IndentStyle, LineBetweenMembers, LineEnding, MinConditionalIndent,
    Mode, ObjCColonPad, PointerAlign, ReferenceAlign, StylePreset,
};
pub use apply::{apply_command_line_args, apply_source, apply_whole_source, parse_source};
pub use parser::split_short_options;

use crate::text::{decimal, decimal_spec, push_all, push_lit, string_of};
use vstd::prelude::*;

verus! {

/// The name of the configuration file.
pub const CONFIG_FILE_NAME: &'static str = ".cstylerc";

/// The name of the configuration file read where the first is missing.
pub const ASTYLE_CONFIG_FILE_NAME: &'static str = ".astylerc";

/// An error in an option, a configuration file, or reading one.
#[derive(Debug)]
pub struct ConfigError {
    message: String,
}

impl View for ConfigError {
    type V = Seq<char>;

    closed spec fn view(&self) -> Seq<char> {
        self.message@
    }
}

/// The message of an error found on line `line_number` of `path`.
pub open spec fn line_message(path: Seq<char>, line_number: nat, message: Seq<char>) -> Seq<char> {
    path + ":"@ + decimal_spec(line_number) + ": "@ + message
}

impl ConfigError {
    /// An error with the given message.
    pub fn new(message: String) -> (r: Self)
        ensures
            r@ == message@,
    {
        Self { message }
    }

    /// An error in reading `path`; `error` is the reader's own description.
    pub fn io(path: &str, error: &str) -> (r: Self)
        ensures
            r@ == "failed to read "@ + path@ + ": "@ + error@,
    {
        let mut m: Vec<char> = Vec::new();
        push_lit(&mut m, "failed to read ");
        push_lit(&mut m, path);
        push_lit(&mut m, ": ");
        push_lit(&mut m, error);
        Self { message: string_of(m.as_slice()) }
    }

    /// An error found on line `line_number` of `path`.
    pub fn line(path: &[char], line_number: usize, message: &[char]) -> (r: Self)
        ensures
            r@ == line_message(path@, line_number as nat, message@),
    {
        let mut m: Vec<char> = Vec::new();
        push_all(&mut m, path);
        push_lit(&mut m, ":");
        let digits = decimal(line_number);
        push_all(&mut m, digits.as_slice());
        push_lit(&mut m, ": ");
        push_all(&mut m, message);
        Self { message: string_of(m.as_slice()) }
    }

    /// The message, as it is displayed.
    pub fn to_string(&self) -> (r: String)
        ensures
            r@ == self@,
    {
        self.message.clone()
    }
}

} // verus!
