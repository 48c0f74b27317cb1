//! The command line: the error it reports and its decisions on arguments,
//! console options and targets.

pub mod args;
pub mod console_laws;
pub mod report;
pub mod sources;
pub mod target_laws;
pub mod targets;
pub mod wildcard;

use crate::config::ConfigError;
use crate::text::{push_lit, string_of, chars_of, push_all};
use vstd::prelude::*;

verus! {

/// A text as the system gives it (an argument, a file name): its bytes, and
/// its characters where those bytes are UTF-8.
#[derive(Debug, Clone)]
pub struct OsText {
    pub bytes: Vec<u8>,
    pub text: Option<String>,
}

/// The model of an `OsText`.
pub struct OsTextModel {
    pub bytes: Seq<u8>,
    pub text: Option<Seq<char>>,
}

impl View for OsText {
    type V = OsTextModel;

    open spec fn view(&self) -> OsTextModel {
        OsTextModel {
            bytes: self.bytes@,
            text: match self.text {
                Some(t) => Some(t@),
                None => None,
            },
        }
    }
}

/// An error of the command line, with the exit code it ends the program with.
#[derive(Debug)]
pub struct CliError {
    message: String,
    exit_code: u8,
    errors_to_stdout: bool,
}

impl CliError {
    /// The message, as it is displayed.
    pub closed spec fn message(&self) -> Seq<char> {
        self.message@
    }

    /// The exit code.
    pub closed spec fn code(&self) -> u8 {
        self.exit_code
    }

    /// Whether the error is written to standard output.
    pub closed spec fn to_stdout(&self) -> bool {
        self.errors_to_stdout
    }

    /// An error with the given message and exit code, reported on standard error.
    pub fn new(message: String, exit_code: u8) -> (r: Self)
        ensures
            r.message() == message@,
            r.code() == exit_code,
            !r.to_stdout(),
    {
        Self { message, exit_code, errors_to_stdout: false }
    }

    /// The same error, reported on standard output where `errors_to_stdout` is set.
    pub fn with_stdout(self, errors_to_stdout: bool) -> (r: Self)
        ensures
            r.message() == self.message(),
            r.code() == self.code(),
            r.to_stdout() == errors_to_stdout,
    {
        Self { errors_to_stdout, ..self }
    }

    /// A failure to write standard output; `error` is the writer's own description.
    pub fn stdout(error: &str) -> (r: Self)
        ensures
            r.message() == "failed to write stdout: "@ + error@,
            r.code() == 1,
            !r.to_stdout(),
    {
        let mut m: Vec<char> = Vec::new();
        push_lit(&mut m, "failed to write stdout: ");
        push_lit(&mut m, error);
        Self::new(string_of(m.as_slice()), 1)
    }

    /// An error in the option files, which ends the program with code 2.
    pub fn config(error: &ConfigError) -> (r: Self)
        ensures
            r.message() == "config error: "@ + error@,
            r.code() == 2,
            !r.to_stdout(),
    {
        let mut m: Vec<char> = Vec::new();
        push_lit(&mut m, "config error: ");
        let e = error.to_string();
        let ec = chars_of(e.as_str());
        push_all(&mut m, ec.as_slice());
        Self::new(string_of(m.as_slice()), 2)
    }

    /// An error in the command-line options, which ends the program with code 2.
    pub fn option(error: &ConfigError) -> (r: Self)
        ensures
            r.message() == "option error: "@ + error@ + ". Try 'cstyle --help'."@,
            r.code() == 2,
            !r.to_stdout(),
    {
        let mut m: Vec<char> = Vec::new();
        push_lit(&mut m, "option error: ");
        let e = error.to_string();
        let ec = chars_of(e.as_str());
        push_all(&mut m, ec.as_slice());
        push_lit(&mut m, ". Try 'cstyle --help'.");
        Self::new(string_of(m.as_slice()), 2)
    }

    /// The exit code.
    pub fn exit_code(&self) -> (r: u8)
        ensures
            r == self.code(),
    {
        self.exit_code
    }

    /// Whether the error is written to standard output.
    pub fn errors_to_stdout(&self) -> (r: bool)
        ensures
            r == self.to_stdout(),
    {
        self.errors_to_stdout
    }

    /// The message, as it is displayed.
    pub fn to_string(&self) -> (r: String)
        ensures
            r@ == self.message(),
    {
        self.message.clone()
    }
}

} // verus!
