//! The command-line arguments: which option files to read, which options to
//! apply, which files to format, and the console options that govern how.

use super::{CliError, OsText, OsTextModel};
use crate::config::ASTYLE_CONFIG_FILE_NAME;
use crate::config::options::strings_view;
use crate::config::parser::{split_short_options, texts_view};
use crate::config::grammar::split_short_spec;
use crate::text::{chars_of, is_lit, push_all, push_lit, seq_eq, starts_with_lit, starts_with_spec,
    string_of, strip_prefix_lit, subrange};
use vstd::prelude::*;

verus! {

/// What `--ignore-exclude-errors` and its kin ask for.
#[derive(Debug, Clone, Copy, PartialEq, Eq, Structural)]
pub enum ExcludeErrorMode {
    Error,
    Show,
    Ignore,
}

/// The options that govern the console program rather than the formatting.
#[derive(Debug, Clone, PartialEq, Eq)]
pub struct ConsoleOptions {
    pub backup_suffix: Option<String>,
    pub recursive: bool,
    pub dry_run: bool,
    pub error_on_changes: bool,
    pub accept_empty_list: bool,
    pub preserve_date: bool,
    pub quiet: bool,
    pub formatted_only: bool,
    pub verbose: bool,
    pub errors_to_stdout: bool,
    pub excludes: Vec<String>,
    pub exclude_errors: ExcludeErrorMode,
}

/// The model of `ConsoleOptions`, with texts as character sequences.
pub struct ConsoleModel {
    pub backup_suffix: Option<Seq<char>>,
    pub recursive: bool,
    pub dry_run: bool,
    pub error_on_changes: bool,
    pub accept_empty_list: bool,
    pub preserve_date: bool,
    pub quiet: bool,
    pub formatted_only: bool,
    pub verbose: bool,
    pub errors_to_stdout: bool,
    pub excludes: Seq<Seq<char>>,
    pub exclude_errors: ExcludeErrorMode,
}

/// The view of an optional string.
pub open spec fn opt_string_view(s: Option<String>) -> Option<Seq<char>> {
    match s {
        Some(t) => Some(t@),
        None => None,
    }
}

impl View for ConsoleOptions {
    type V = ConsoleModel;

    open spec fn view(&self) -> ConsoleModel {
        ConsoleModel {
            backup_suffix: opt_string_view(self.backup_suffix),
            recursive: self.recursive,
            dry_run: self.dry_run,
            error_on_changes: self.error_on_changes,
            accept_empty_list: self.accept_empty_list,
            preserve_date: self.preserve_date,
            quiet: self.quiet,
            formatted_only: self.formatted_only,
            verbose: self.verbose,
            errors_to_stdout: self.errors_to_stdout,
            excludes: strings_view(self.excludes@),
            exclude_errors: self.exclude_errors,
        }
    }
}

/// The console options before any argument: backups with `.orig`, and
/// unmatched excludes reported as errors.
pub open spec fn default_console() -> ConsoleModel {
    ConsoleModel {
        backup_suffix: Some(".orig"@),
        recursive: false,
        dry_run: false,
        error_on_changes: false,
        accept_empty_list: false,
        preserve_date: false,
        quiet: false,
        formatted_only: false,
        verbose: false,
        errors_to_stdout: false,
        excludes: seq![],
        exclude_errors: ExcludeErrorMode::Error,
    }
}

impl Default for ConsoleOptions {
    fn default() -> (r: Self)
        ensures
            r@ == default_console(),
    {
        let r = Self {
            backup_suffix: Some(string_of(chars_of(".orig").as_slice())),
            recursive: false,
            dry_run: false,
            error_on_changes: false,
            accept_empty_list: false,
            preserve_date: false,
            quiet: false,
            formatted_only: false,
            verbose: false,
            errors_to_stdout: false,
            excludes: Vec::new(),
            exclude_errors: ExcludeErrorMode::Error,
        };
        assert(strings_view(r.excludes@) =~= Seq::<Seq<char>>::empty());
        r
    }
}

/// `c` after `suffix=v`: `none` switches backups off for good; another
/// non-empty value replaces the suffix while backups are on.
pub open spec fn suffix_spec(c: ConsoleModel, v: Seq<char>) -> ConsoleModel {
    if v == "none"@ {
        ConsoleModel { backup_suffix: None, ..c }
    } else if v.len() > 0 && c.backup_suffix is Some {
        ConsoleModel { backup_suffix: Some(v), ..c }
    } else {
        c
    }
}

/// Whether `option` is a console option, and `c` after it.
pub open spec fn console_option_spec(c: ConsoleModel, option: Seq<char>) -> (bool, ConsoleModel) {
    if option == "n"@ || option == "suffix=none"@ {
        (true, ConsoleModel { backup_suffix: None, ..c })
    } else if option == "r"@ || option == "R"@ || option == "recursive"@ {
        (true, ConsoleModel { recursive: true, ..c })
    } else if option == "dry-run"@ {
        (true, ConsoleModel { dry_run: true, ..c })
    } else if option == "error-on-changes"@ {
        (true, ConsoleModel { error_on_changes: true, ..c })
    } else {
        console_option_spec_2(c, option)
    }
}

/// `console_option_spec`, continued.
pub open spec fn console_option_spec_2(c: ConsoleModel, option: Seq<char>) -> (bool, ConsoleModel) {
    if option == "accept-empty-list"@ {
        (true, ConsoleModel { accept_empty_list: true, ..c })
    } else if option == "Z"@ || option == "preserve-date"@ {
        (true, ConsoleModel { preserve_date: true, ..c })
    } else if option == "q"@ || option == "quiet"@ {
        (true, ConsoleModel { quiet: true, ..c })
    } else if option == "Q"@ || option == "formatted"@ {
        (true, ConsoleModel { formatted_only: true, ..c })
    } else {
        console_option_spec_3(c, option)
    }
}

/// `console_option_spec`, continued.
pub open spec fn console_option_spec_3(c: ConsoleModel, option: Seq<char>) -> (bool, ConsoleModel) {
    if option == "v"@ || option == "verbose"@ {
        (true, ConsoleModel { verbose: true, ..c })
    } else if option == "X"@ || option == "errors-to-stdout"@ {
        (true, ConsoleModel { errors_to_stdout: true, ..c })
    } else if option == "i"@ || option == "ignore-exclude-errors"@ {
        (true, ConsoleModel { exclude_errors: ExcludeErrorMode::Show, ..c })
    } else if option == "xi"@ || option == "ignore-exclude-errors-x"@ {
        (true, ConsoleModel { exclude_errors: ExcludeErrorMode::Ignore, ..c })
    } else {
        console_option_spec_4(c, option)
    }
}

/// `console_option_spec`, continued: `suffix=` and `exclude=`.
pub open spec fn console_option_spec_4(c: ConsoleModel, option: Seq<char>) -> (bool, ConsoleModel) {
    if starts_with_spec(option, "suffix="@) {
        (true, suffix_spec(c, option.skip(7)))
    } else if starts_with_spec(option, "exclude="@) {
        let v = option.skip(8);
        (
            true,
            if v.len() > 0 {
                ConsoleModel { excludes: c.excludes.push(v), ..c }
            } else {
                c
            },
        )
    } else {
        (false, c)
    }
}

/// The characters of `s` tried one by one as console options: all must be
/// ones; those before the first that is not stay applied.
pub open spec fn console_chars_spec(c: ConsoleModel, s: Seq<char>, handled: bool) -> (
    bool,
    ConsoleModel,
)
    decreases s.len(),
{
    if s.len() == 0 {
        (handled, c)
    } else {
        let (h, next) = console_option_spec(c, seq![s[0]]);
        if h {
            console_chars_spec(next, s.skip(1), true)
        } else {
            (false, c)
        }
    }
}

/// Whether the argument `arg` is a console option, and `c` after it.
pub open spec fn console_arg_spec(c: ConsoleModel, arg: Seq<char>) -> (bool, ConsoleModel) {
    if starts_with_spec(arg, "--"@) {
        console_option_spec(c, arg.skip(2))
    } else if starts_with_spec(arg, "-"@) {
        let options = arg.skip(1);
        let (h, next) = console_option_spec(c, options);
        if h {
            (true, next)
        } else {
            console_chars_spec(c, options, false)
        }
    } else {
        console_option_spec(c, arg)
    }
}

/// `c` with `suffix=value` applied.
fn with_suffix(c: ConsoleOptions, value: &[char]) -> (r: ConsoleOptions)
    ensures
        r@ == suffix_spec(c@, value@),
{
    if is_lit(value, "none") {
        ConsoleOptions { backup_suffix: None, ..c }
    } else if value.len() > 0 && c.backup_suffix.is_some() {
        ConsoleOptions { backup_suffix: Some(string_of(value)), ..c }
    } else {
        c
    }
}

/// Whether `option` is a console option, and `c` after it.
fn console_option(c: ConsoleOptions, option: &[char]) -> (r: (bool, ConsoleOptions))
    ensures
        (r.0, r.1@) == console_option_spec(c@, option@),
{
    if is_lit(option, "n") || is_lit(option, "suffix=none") {
        (true, ConsoleOptions { backup_suffix: None, ..c })
    } else if is_lit(option, "r") || is_lit(option, "R") || is_lit(option, "recursive") {
        (true, ConsoleOptions { recursive: true, ..c })
    } else if is_lit(option, "dry-run") {
        (true, ConsoleOptions { dry_run: true, ..c })
    } else if is_lit(option, "error-on-changes") {
        (true, ConsoleOptions { error_on_changes: true, ..c })
    } else {
        console_option_2(c, option)
    }
}

/// `console_option`, continued.
fn console_option_2(c: ConsoleOptions, option: &[char]) -> (r: (bool, ConsoleOptions))
    ensures
        (r.0, r.1@) == console_option_spec_2(c@, option@),
{
    if is_lit(option, "accept-empty-list") {
        (true, ConsoleOptions { accept_empty_list: true, ..c })
    } else if is_lit(option, "Z") || is_lit(option, "preserve-date") {
        (true, ConsoleOptions { preserve_date: true, ..c })
    } else if is_lit(option, "q") || is_lit(option, "quiet") {
        (true, ConsoleOptions { quiet: true, ..c })
    } else if is_lit(option, "Q") || is_lit(option, "formatted") {
        (true, ConsoleOptions { formatted_only: true, ..c })
    } else {
        console_option_3(c, option)
    }
}

/// `console_option`, continued.
fn console_option_3(c: ConsoleOptions, option: &[char]) -> (r: (bool, ConsoleOptions))
    ensures
        (r.0, r.1@) == console_option_spec_3(c@, option@),
{
    if is_lit(option, "v") || is_lit(option, "verbose") {
        (true, ConsoleOptions { verbose: true, ..c })
    } else if is_lit(option, "X") || is_lit(option, "errors-to-stdout") {
        (true, ConsoleOptions { errors_to_stdout: true, ..c })
    } else if is_lit(option, "i") || is_lit(option, "ignore-exclude-errors") {
        (true, ConsoleOptions { exclude_errors: ExcludeErrorMode::Show, ..c })
    } else if is_lit(option, "xi") || is_lit(option, "ignore-exclude-errors-x") {
        (true, ConsoleOptions { exclude_errors: ExcludeErrorMode::Ignore, ..c })
    } else {
        console_option_4(c, option)
    }
}

/// `console_option`, continued: `suffix=` and `exclude=`.
fn console_option_4(c: ConsoleOptions, option: &[char]) -> (r: (bool, ConsoleOptions))
    ensures
        (r.0, r.1@) == console_option_spec_4(c@, option@),
{
    proof {
        reveal_strlit("suffix=");
        reveal_strlit("exclude=");
    }
    if let Some(value) = strip_prefix_lit(option, "suffix=") {
        (true, with_suffix(c, value.as_slice()))
    } else if let Some(value) = strip_prefix_lit(option, "exclude=") {
        if value.len() > 0 {
            let mut excludes = c.excludes;
            let ghost before = strings_view(excludes@);
            excludes.push(string_of(value.as_slice()));
            assert(strings_view(excludes@) =~= before.push(value@));
            (true, ConsoleOptions { excludes, ..c })
        } else {
            (true, c)
        }
    } else {
        (false, c)
    }
}

/// The characters of `s` from `i` on tried one by one as console options.
fn console_chars(c: ConsoleOptions, s: &[char], i: usize, handled: bool) -> (r: (
    bool,
    ConsoleOptions,
))
    requires
        i <= s@.len(),
    ensures
        (r.0, r.1@) == console_chars_spec(c@, s@.skip(i as int), handled),
    decreases s@.len() - i,
{
    if i == s.len() {
        return (handled, c);
    }
    let ghost rest = s@.skip(i as int);
    let mut one: Vec<char> = Vec::new();
    one.push(s[i]);
    assert(one@ =~= seq![rest[0]]);
    assert(rest.skip(1) =~= s@.skip(i + 1));
    let ghost before = c@;
    let (h, next) = console_option(c, one.as_slice());
    if h {
        console_chars(next, s, i + 1, true)
    } else {
        proof {
            assert(console_option_spec(before, seq![rest[0]]).1 == before);
        }
        (false, next)
    }
}

/// Whether the argument `arg` is a console option, and `c` after it.
fn console_arg(c: ConsoleOptions, arg: &[char]) -> (r: (bool, ConsoleOptions))
    ensures
        (r.0, r.1@) == console_arg_spec(c@, arg@),
{
    proof {
        reveal_strlit("--");
        reveal_strlit("-");
    }
    if let Some(option) = strip_prefix_lit(arg, "--") {
        console_option(c, option.as_slice())
    } else if let Some(options) = strip_prefix_lit(arg, "-") {
        let ghost before = c@;
        let (h, next) = console_option(c, options.as_slice());
        if h {
            (true, next)
        } else {
            proof {
                assert(console_option_spec(before, options@).1 == before);
                assert(options@.skip(0) =~= options@);
            }
            console_chars(next, options.as_slice(), 0, false)
        }
    } else {
        console_option(c, arg)
    }
}

/// Applies the argument `arg` to `console` where it is a console option;
/// says whether it is one.
pub fn apply_console_arg(console: &mut ConsoleOptions, arg: &str) -> (r: bool)
    ensures
        (r, final(console)@) == console_arg_spec(old(console)@, arg@),
{
    let mut c = ConsoleOptions::default();
    std::mem::swap(console, &mut c);
    let chars = chars_of(arg);
    let (h, next) = console_arg(c, chars.as_slice());
    *console = next;
    h
}

/// The models of a list of arguments.
pub open spec fn args_view(args: Seq<OsText>) -> Seq<OsTextModel> {
    args.map_values(|a: OsText| a@)
}

/// The option file to read before the command-line options.
#[derive(Debug, Clone, PartialEq, Eq)]
pub enum ConfigSelection<P> {
    /// The file found in the usual places.
    Auto,
    /// The file at this path.
    File(P),
    /// No option file (`--options=none`).
    Off,
}

/// The project option file to look for.
#[derive(Debug, Clone, PartialEq, Eq)]
pub enum ProjectConfigSelection<P> {
    /// The name found in the environment, if any.
    Auto,
    /// A file of this name, looked for upwards from the targets.
    FileName(P),
    /// No project option file (`--project=none`).
    Off,
}

impl View for ConfigSelection<Vec<u8>> {
    type V = ConfigSelection<Seq<u8>>;

    open spec fn view(&self) -> ConfigSelection<Seq<u8>> {
        match *self {
            ConfigSelection::Auto => ConfigSelection::Auto,
            ConfigSelection::File(p) => ConfigSelection::File(p@),
            ConfigSelection::Off => ConfigSelection::Off,
        }
    }
}

impl View for ProjectConfigSelection<Vec<u8>> {
    type V = ProjectConfigSelection<Seq<u8>>;

    open spec fn view(&self) -> ProjectConfigSelection<Seq<u8>> {
        match *self {
            ProjectConfigSelection::Auto => ProjectConfigSelection::Auto,
            ProjectConfigSelection::FileName(p) => ProjectConfigSelection::FileName(p@),
            ProjectConfigSelection::Off => ProjectConfigSelection::Off,
        }
    }
}

/// A request to format, as the arguments give it.
pub struct FormatRequest {
    pub config: ConfigSelection<Seq<u8>>,
    pub project_config: ProjectConfigSelection<Seq<u8>>,
    pub option_args: Seq<Seq<char>>,
    pub paths: Seq<Seq<u8>>,
    pub stdin_path: Option<Seq<u8>>,
    pub stdout_path: Option<Seq<u8>>,
    pub console: ConsoleModel,
}

/// What the arguments ask for.
pub enum Outcome {
    Help,
    Version,
    Format(FormatRequest),
}

/// What the arguments ask for, as running code holds it.
#[derive(Debug, PartialEq, Eq)]
pub enum Command {
    Help,
    Version,
    Format {
        config: ConfigSelection<Vec<u8>>,
        project_config: ProjectConfigSelection<Vec<u8>>,
        option_args: Vec<String>,
        paths: Vec<Vec<u8>>,
        stdin_path: Option<Vec<u8>>,
        stdout_path: Option<Vec<u8>>,
        console: ConsoleOptions,
    },
}

/// The views of a list of byte strings.
pub open spec fn bytes_list_view(v: Seq<Vec<u8>>) -> Seq<Seq<u8>> {
    v.map_values(|b: Vec<u8>| b@)
}

/// The view of an optional byte string.
pub open spec fn opt_bytes_view(b: Option<Vec<u8>>) -> Option<Seq<u8>> {
    match b {
        Some(v) => Some(v@),
        None => None,
    }
}

impl View for Command {
    type V = Outcome;

    open spec fn view(&self) -> Outcome {
        match *self {
            Command::Help => Outcome::Help,
            Command::Version => Outcome::Version,
            Command::Format {
                config,
                project_config,
                option_args,
                paths,
                stdin_path,
                stdout_path,
                console,
            } => Outcome::Format(
                FormatRequest {
                    config: config@,
                    project_config: project_config@,
                    option_args: strings_view(option_args@),
                    paths: bytes_list_view(paths@),
                    stdin_path: opt_bytes_view(stdin_path),
                    stdout_path: opt_bytes_view(stdout_path),
                    console: console@,
                },
            ),
        }
    }
}

/// The bytes of an ASCII text.
pub open spec fn ascii_bytes(s: Seq<char>) -> Seq<u8> {
    s.map_values(|c: char| (c as u32) as u8)
}

/// What follows the ASCII prefix `lit` in the bytes `b`, where `b` starts with it.
pub open spec fn byte_value_after(b: Seq<u8>, lit: Seq<char>) -> Option<Seq<u8>> {
    let p = ascii_bytes(lit);
    if p.len() <= b.len() && b.take(p.len() as int) == p {
        Some(b.skip(p.len() as int))
    } else {
        None
    }
}

/// The request before any argument.
pub open spec fn request_start() -> FormatRequest {
    FormatRequest {
        config: ConfigSelection::Auto,
        project_config: ProjectConfigSelection::Auto,
        option_args: seq![],
        paths: seq![],
        stdin_path: None,
        stdout_path: None,
        console: default_console(),
    }
}

/// The single options of a short bundle, each with its dash, tried as console
/// options in order; those that are not go to the formatter options.
pub open spec fn short_bundle_spec(
    c: ConsoleModel,
    option_args: Seq<Seq<char>>,
    pieces: Seq<Seq<char>>,
) -> (ConsoleModel, Seq<Seq<char>>)
    decreases pieces.len(),
{
    if pieces.len() == 0 {
        (c, option_args)
    } else {
        let o = "-"@ + pieces[0];
        let (h, next) = console_arg_spec(c, o);
        short_bundle_spec(
            next,
            if h {
                option_args
            } else {
                option_args.push(o)
            },
            pieces.skip(1),
        )
    }
}

/// What one argument does: ends the parse (with an outcome or an error), or
/// goes on with the next argument, or with the one after it (`--mode VALUE`).
pub enum ParseStep {
    Done(Result<Outcome, Seq<char>>),
    Next(FormatRequest),
    SkipNext(FormatRequest),
}

/// The argument `a`, followed by `next`, read into `st`.
pub open spec fn text_step_spec(t: Seq<char>, a: OsTextModel, next: Option<OsTextModel>, st: FormatRequest) -> ParseStep {
    if t == "-h"@ || t == "-?"@ || t == "--help"@ {
        ParseStep::Done(Ok(Outcome::Help))
    } else if t == "-V"@ || t == "--version"@ {
        ParseStep::Done(Ok(Outcome::Version))
    } else if t == "--mode"@ {
        match next {
            None => ParseStep::Done(Err("missing value for --mode"@)),
            Some(n) => match n.text {
                None => ParseStep::Done(Err("invalid UTF-8 value for --mode"@)),
                Some(v) => ParseStep::SkipNext(
                    FormatRequest { option_args: st.option_args.push("--mode="@ + v), ..st },
                ),
            },
        }
    } else if t == "--project"@ {
        ParseStep::Next(
            FormatRequest {
                project_config: ProjectConfigSelection::FileName(ascii_bytes(".astylerc"@)),
                ..st
            },
        )
    } else if starts_with_spec(t, "-"@) && !starts_with_spec(t, "--"@) {
        let so = t.skip(1);
        if so.len() == 0 {
            ParseStep::Next(FormatRequest { option_args: st.option_args.push(t), ..st })
        } else {
            let (c, oa) = short_bundle_spec(st.console, st.option_args, split_short_spec(so));
            ParseStep::Next(FormatRequest { console: c, option_args: oa, ..st })
        }
    } else if starts_with_spec(t, "-"@) {
        let (h, c) = console_arg_spec(st.console, t);
        if h {
            ParseStep::Next(FormatRequest { console: c, ..st })
        } else {
            ParseStep::Next(FormatRequest { console: c, option_args: st.option_args.push(t), ..st })
        }
    } else if starts_with_spec(t, "mode="@) {
        ParseStep::Next(FormatRequest { option_args: st.option_args.push(t), ..st })
    } else {
        ParseStep::Next(FormatRequest { paths: st.paths.push(a.bytes), ..st })
    }
}

/// The argument `a`, followed by `next`, read into `st`: the byte prefixes
/// `--options=`, `--project=`, `--stdin=` and `--stdout=` first, then the
/// text of the argument; an argument that is no text is a path.
pub open spec fn step_spec(a: OsTextModel, next: Option<OsTextModel>, st: FormatRequest) -> ParseStep {
    if let Some(v) = byte_value_after(a.bytes, "--options="@) {
        if v.len() == 0 {
            ParseStep::Done(Err("missing value for --options"@))
        } else if v == ascii_bytes("none"@) {
            ParseStep::Next(FormatRequest { config: ConfigSelection::Off, ..st })
        } else {
            ParseStep::Next(FormatRequest { config: ConfigSelection::File(v), ..st })
        }
    } else if let Some(v) = byte_value_after(a.bytes, "--project="@) {
        if v.len() == 0 {
            ParseStep::Done(Err("missing value for --project"@))
        } else if v == ascii_bytes("none"@) {
            ParseStep::Next(FormatRequest { project_config: ProjectConfigSelection::Off, ..st })
        } else {
            ParseStep::Next(
                FormatRequest { project_config: ProjectConfigSelection::FileName(v), ..st },
            )
        }
    } else if let Some(v) = byte_value_after(a.bytes, "--stdin="@) {
        if v.len() == 0 {
            ParseStep::Done(Err("missing value for --stdin"@))
        } else {
            ParseStep::Next(FormatRequest { stdin_path: Some(v), ..st })
        }
    } else if let Some(v) = byte_value_after(a.bytes, "--stdout="@) {
        if v.len() == 0 {
            ParseStep::Done(Err("missing value for --stdout"@))
        } else {
            ParseStep::Next(FormatRequest { stdout_path: Some(v), ..st })
        }
    } else {
        match a.text {
            None => ParseStep::Next(FormatRequest { paths: st.paths.push(a.bytes), ..st }),
            Some(t) => text_step_spec(t, a, next, st),
        }
    }
}

/// The arguments `args` read, in order, into `st`.
pub open spec fn parse_from(args: Seq<OsTextModel>, st: FormatRequest) -> Result<Outcome, Seq<char>>
    decreases args.len(),
{
    if args.len() == 0 {
        Ok(Outcome::Format(st))
    } else {
        let next = if args.len() > 1 {
            Some(args[1])
        } else {
            None
        };
        match step_spec(args[0], next, st) {
            ParseStep::Done(r) => r,
            ParseStep::Next(st2) => parse_from(args.skip(1), st2),
            ParseStep::SkipNext(st2) => if args.len() >= 2 {
                parse_from(args.skip(2), st2)
            } else {
                Ok(Outcome::Format(st2))
            },
        }
    }
}

/// What the arguments `args` ask for.
pub open spec fn parse_spec(args: Seq<OsTextModel>) -> Result<Outcome, Seq<char>> {
    parse_from(args, request_start())
}

/// The bytes of the ASCII text `lit`.
fn ascii_bytes_of(lit: &str) -> (r: Vec<u8>)
    ensures
        r@ == ascii_bytes(lit@),
{
    let chars = chars_of(lit);
    let mut r: Vec<u8> = Vec::new();
    let mut i: usize = 0;
    while i < chars.len()
        invariant
            i <= chars@.len(),
            chars@ == lit@,
            r@ == ascii_bytes(chars@.take(i as int)),
        decreases chars.len() - i,
    {
        let c = chars[i];
        let b: u8 = (c as u32) as u8;
        r.push(b);
        assert(ascii_bytes(chars@.take(i + 1)) =~= ascii_bytes(chars@.take(i as int)).push(b));
        i = i + 1;
    }
    assert(chars@.take(i as int) =~= chars@);
    r
}

/// Whether two byte strings are equal.
fn bytes_eq(a: &[u8], b: &[u8]) -> (r: bool)
    ensures
        r == (a@ == b@),
{
    if a.len() != b.len() {
        return false;
    }
    let mut i: usize = 0;
    while i < a.len()
        invariant
            i <= a@.len() == b@.len(),
            a@.take(i as int) == b@.take(i as int),
        decreases a.len() - i,
    {
        if a[i] != b[i] {
            assert(a@[i as int] != b@[i as int]);
            return false;
        }
        assert(a@.take(i + 1) =~= a@.take(i as int).push(a@[i as int]));
        assert(b@.take(i + 1) =~= b@.take(i as int).push(b@[i as int]));
        i = i + 1;
    }
    assert(a@.take(i as int) =~= a@);
    assert(b@.take(i as int) =~= b@);
    true
}

/// What follows the ASCII prefix `lit` in `b`, where `b` starts with it.
fn byte_value(b: &[u8], lit: &str) -> (r: Option<Vec<u8>>)
    ensures
        opt_bytes_view(r) == byte_value_after(b@, lit@),
{
    let p = ascii_bytes_of(lit);
    if p.len() > b.len() {
        return None;
    }
    let mut head: Vec<u8> = Vec::new();
    let mut i: usize = 0;
    while i < p.len()
        invariant
            i <= p@.len() <= b@.len(),
            head@ == b@.take(i as int),
        decreases p.len() - i,
    {
        head.push(b[i]);
        assert(b@.take(i + 1) =~= b@.take(i as int).push(b@[i as int]));
        i = i + 1;
    }
    if !bytes_eq(head.as_slice(), p.as_slice()) {
        return None;
    }
    let mut rest: Vec<u8> = Vec::new();
    let mut j: usize = p.len();
    while j < b.len()
        invariant
            p@.len() <= j <= b@.len(),
            rest@ == b@.subrange(p@.len() as int, j as int),
        decreases b.len() - j,
    {
        rest.push(b[j]);
        assert(b@.subrange(p@.len() as int, j + 1) =~= b@.subrange(p@.len() as int, j as int).push(
            b@[j as int],
        ));
        j = j + 1;
    }
    assert(rest@ =~= b@.skip(p@.len() as int));
    Some(rest)
}

/// The single options of a short bundle, each with its dash, tried as console
/// options in order; those that are not go to `option_args`.
fn short_bundle(console: ConsoleOptions, option_args: Vec<String>, pieces: &Vec<Vec<char>>) -> (r: (
    ConsoleOptions,
    Vec<String>,
))
    ensures
        (r.0@, strings_view(r.1@)) == short_bundle_spec(
            console@,
            strings_view(option_args@),
            texts_view(pieces@),
        ),
{
    let ghost all = texts_view(pieces@);
    let ghost goal = short_bundle_spec(console@, strings_view(option_args@), all);
    let mut c = console;
    let mut oa = option_args;
    let mut i: usize = 0;
    assert(all.skip(0) =~= all);
    while i < pieces.len()
        invariant
            i <= pieces@.len(),
            all == texts_view(pieces@),
            short_bundle_spec(c@, strings_view(oa@), all.skip(i as int)) == goal,
        decreases pieces.len() - i,
    {
        let ghost rest = all.skip(i as int);
        assert(rest[0] == pieces@[i as int]@);
        assert(rest.skip(1) =~= all.skip(i + 1));
        let mut o: Vec<char> = Vec::new();
        push_lit(&mut o, "-");
        push_all(&mut o, pieces[i].as_slice());
        let (h, next) = console_arg(c, o.as_slice());
        c = next;
        if !h {
            let ghost before = strings_view(oa@);
            oa.push(string_of(o.as_slice()));
            assert(strings_view(oa@) =~= before.push(o@));
        }
        i = i + 1;
    }
    assert(all.skip(i as int) =~= Seq::<Seq<char>>::empty());
    (c, oa)
}

/// Whether some argument asks for errors on standard output: the long
/// option `--errors-to-stdout`, or `X` among the options of a short bundle.
pub open spec fn requests_errors_to_stdout_spec(args: Seq<OsTextModel>) -> bool {
    exists|i: int|
        0 <= i < args.len() && #[trigger] arg_requests_stdout(args[i])
}

/// Whether the argument `a` asks for errors on standard output.
pub open spec fn arg_requests_stdout(a: OsTextModel) -> bool {
    match a.text {
        Some(t) => t == "--errors-to-stdout"@ || (starts_with_spec(t, "-"@) && !starts_with_spec(
            t,
            "--"@,
        ) && split_short_spec(t.skip(1)).contains("X"@)),
        None => false,
    }
}

/// Whether `lit` is among `v`.
fn contains_text(v: &Vec<Vec<char>>, lit: &str) -> (r: bool)
    ensures
        r == texts_view(v@).contains(lit@),
{
    let ghost pv = texts_view(v@);
    let mut i: usize = 0;
    while i < v.len()
        invariant
            i <= v@.len(),
            pv == texts_view(v@),
            forall|j: int| 0 <= j < i ==> pv[j] != lit@,
        decreases v.len() - i,
    {
        if is_lit(v[i].as_slice(), lit) {
            assert(pv[i as int] == lit@);
            return true;
        }
        i = i + 1;
    }
    false
}

/// Whether the argument `a` asks for errors on standard output.
fn arg_requests_errors_to_stdout(a: &OsText) -> (r: bool)
    ensures
        r == arg_requests_stdout(a@),
{
    proof {
        reveal_strlit("-");
        reveal_strlit("--");
    }
    match &a.text {
        Some(text) => {
            let t = chars_of(text.as_str());
            if is_lit(t.as_slice(), "--errors-to-stdout") {
                return true;
            }
            if starts_with_lit(t.as_slice(), "-") && !starts_with_lit(t.as_slice(), "--") {
                let rest = subrange(t.as_slice(), 1, t.len());
                let pieces = split_short_options(rest.as_slice());
                assert(rest@ =~= t@.skip(1));
                contains_text(&pieces, "X")
            } else {
                false
            }
        },
        None => false,
    }
}

/// Whether some argument asks for errors on standard output (read before
/// the arguments are parsed, so that a parse error can honor it).
pub fn requests_errors_to_stdout(args: &[OsText]) -> (r: bool)
    ensures
        r == requests_errors_to_stdout_spec(args_view(args@)),
{
    let ghost av = args_view(args@);
    let mut i: usize = 0;
    while i < args.len()
        invariant
            i <= args@.len(),
            av == args_view(args@),
            forall|j: int| 0 <= j < i ==> !arg_requests_stdout(#[trigger] av[j]),
        decreases args.len() - i,
    {
        if arg_requests_errors_to_stdout(&args[i]) {
            assert(arg_requests_stdout(av[i as int]));
            return true;
        }
        i = i + 1;
    }
    false
}

/// The parse so far, as running code holds it.
struct ParseState {
    config: ConfigSelection<Vec<u8>>,
    project_config: ProjectConfigSelection<Vec<u8>>,
    option_args: Vec<String>,
    paths: Vec<Vec<u8>>,
    stdin_path: Option<Vec<u8>>,
    stdout_path: Option<Vec<u8>>,
    console: ConsoleOptions,
}

impl View for ParseState {
    type V = FormatRequest;

    closed spec fn view(&self) -> FormatRequest {
        FormatRequest {
            config: self.config@,
            project_config: self.project_config@,
            option_args: strings_view(self.option_args@),
            paths: bytes_list_view(self.paths@),
            stdin_path: opt_bytes_view(self.stdin_path),
            stdout_path: opt_bytes_view(self.stdout_path),
            console: self.console@,
        }
    }
}

/// What one argument does, as running code holds it.
enum Step {
    Done(Result<Command, CliError>),
    Next(ParseState),
    SkipNext(ParseState),
}

/// Whether `r` is what `s` says.
spec fn step_matches(r: Step, s: ParseStep) -> bool {
    match r {
        Step::Done(Ok(c)) => s == ParseStep::Done(Ok(c@)),
        Step::Done(Err(e)) => s == ParseStep::Done(Err(e.message())) && e.code() == 2,
        Step::Next(st) => s == ParseStep::Next(st@),
        Step::SkipNext(st) => s == ParseStep::SkipNext(st@),
    }
}

/// The error of a parse: the message, with exit code 2.
fn usage_error(message: &str) -> (r: CliError)
    ensures
        r.message() == message@,
        r.code() == 2,
        !r.to_stdout(),
{
    CliError::new(string_of(chars_of(message).as_slice()), 2)
}

/// `st` with `o` added to the formatter options.
fn with_option_arg(st: ParseState, o: &[char]) -> (r: ParseState)
    ensures
        r@ == (FormatRequest { option_args: st@.option_args.push(o@), ..st@ }),
{
    let mut option_args = st.option_args;
    let ghost before = strings_view(option_args@);
    option_args.push(string_of(o));
    assert(strings_view(option_args@) =~= before.push(o@));
    ParseState { option_args, ..st }
}

/// `st` with the path `b` added to the targets.
fn with_path(st: ParseState, b: &[u8]) -> (r: ParseState)
    ensures
        r@ == (FormatRequest { paths: st@.paths.push(b@), ..st@ }),
{
    let mut paths = st.paths;
    let ghost before = bytes_list_view(paths@);
    paths.push(copy_bytes(b));
    assert(bytes_list_view(paths@) =~= before.push(b@));
    ParseState { paths, ..st }
}

/// The argument `a`, whose text is `t`, followed by `next`, read into `st`.
fn text_step(t: &[char], a: &OsText, next: Option<&OsText>, st: ParseState) -> (r: Step)
    ensures
        step_matches(r, text_step_spec(t@, a@, opt_arg_view(next), st@)),
{
    proof {
        reveal_strlit("-");
        reveal_strlit("--");
    }
    if is_lit(t, "-h") || is_lit(t, "-?") || is_lit(t, "--help") {
        Step::Done(Ok(Command::Help))
    } else if is_lit(t, "-V") || is_lit(t, "--version") {
        Step::Done(Ok(Command::Version))
    } else if is_lit(t, "--mode") {
        match next {
            None => Step::Done(Err(usage_error("missing value for --mode"))),
            Some(n) => match &n.text {
                None => Step::Done(Err(usage_error("invalid UTF-8 value for --mode"))),
                Some(value) => {
                    let mut m: Vec<char> = Vec::new();
                    push_lit(&mut m, "--mode=");
                    let vc = chars_of(value.as_str());
                    push_all(&mut m, vc.as_slice());
                    Step::SkipNext(with_option_arg(st, m.as_slice()))
                },
            },
        }
    } else if is_lit(t, "--project") {
        let name = ascii_bytes_of(ASTYLE_CONFIG_FILE_NAME);
        Step::Next(ParseState { project_config: ProjectConfigSelection::FileName(name), ..st })
    } else if starts_with_lit(t, "-") && !starts_with_lit(t, "--") {
        let so = subrange(t, 1, t.len());
        assert(so@ =~= t@.skip(1));
        if so.len() == 0 {
            Step::Next(with_option_arg(st, t))
        } else {
            let pieces = split_short_options(so.as_slice());
            let (c, oa) = short_bundle(st.console, st.option_args, &pieces);
            Step::Next(ParseState { console: c, option_args: oa, ..st })
        }
    } else if starts_with_lit(t, "-") {
        let (h, c) = console_arg(st.console, t);
        let st = ParseState { console: c, ..st };
        if h {
            Step::Next(st)
        } else {
            Step::Next(with_option_arg(st, t))
        }
    } else if starts_with_lit(t, "mode=") {
        Step::Next(with_option_arg(st, t))
    } else {
        Step::Next(with_path(st, a.bytes.as_slice()))
    }
}

/// The model of an optional argument.
pub open spec fn opt_arg_view(a: Option<&OsText>) -> Option<OsTextModel> {
    match a {
        Some(x) => Some(x@),
        None => None,
    }
}

/// The argument `a`, followed by `next`, read into `st`.
fn step(a: &OsText, next: Option<&OsText>, st: ParseState) -> (r: Step)
    ensures
        step_matches(r, step_spec(a@, opt_arg_view(next), st@)),
{
    let none_bytes = ascii_bytes_of("none");
    if let Some(v) = byte_value(a.bytes.as_slice(), "--options=") {
        if v.len() == 0 {
            Step::Done(Err(usage_error("missing value for --options")))
        } else if bytes_eq(v.as_slice(), none_bytes.as_slice()) {
            Step::Next(ParseState { config: ConfigSelection::Off, ..st })
        } else {
            Step::Next(ParseState { config: ConfigSelection::File(v), ..st })
        }
    } else if let Some(v) = byte_value(a.bytes.as_slice(), "--project=") {
        if v.len() == 0 {
            Step::Done(Err(usage_error("missing value for --project")))
        } else if bytes_eq(v.as_slice(), none_bytes.as_slice()) {
            Step::Next(ParseState { project_config: ProjectConfigSelection::Off, ..st })
        } else {
            Step::Next(ParseState { project_config: ProjectConfigSelection::FileName(v), ..st })
        }
    } else if let Some(v) = byte_value(a.bytes.as_slice(), "--stdin=") {
        if v.len() == 0 {
            Step::Done(Err(usage_error("missing value for --stdin")))
        } else {
            Step::Next(ParseState { stdin_path: Some(v), ..st })
        }
    } else if let Some(v) = byte_value(a.bytes.as_slice(), "--stdout=") {
        if v.len() == 0 {
            Step::Done(Err(usage_error("missing value for --stdout")))
        } else {
            Step::Next(ParseState { stdout_path: Some(v), ..st })
        }
    } else {
        match &a.text {
            None => Step::Next(with_path(st, a.bytes.as_slice())),
            Some(text) => {
                let t = chars_of(text.as_str());
                text_step(t.as_slice(), a, next, st)
            },
        }
    }
}

/// What the command-line arguments ask for: help, the version, or a request
/// to format, with the option files to read, the options to apply, the
/// targets and the console options. Every error ends the program with code 2.
pub fn parse(args: &[OsText]) -> (r: Result<Command, CliError>)
    ensures
        match r {
            Ok(c) => parse_spec(args_view(args@)) == Ok::<Outcome, Seq<char>>(c@),
            Err(e) => parse_spec(args_view(args@)) == Err::<Outcome, Seq<char>>(e.message())
                && e.code() == 2,
        },
{
    let ghost av = args_view(args@);
    let mut st = ParseState {
        config: ConfigSelection::Auto,
        project_config: ProjectConfigSelection::Auto,
        option_args: Vec::new(),
        paths: Vec::new(),
        stdin_path: None,
        stdout_path: None,
        console: ConsoleOptions::default(),
    };
    let mut i: usize = 0;
    assert(av.skip(0) =~= av);
    assert(strings_view(st.option_args@) =~= Seq::<Seq<char>>::empty());
    assert(bytes_list_view(st.paths@) =~= Seq::<Seq<u8>>::empty());
    assert(st@ == request_start());
    while i < args.len()
        invariant
            i <= args@.len(),
            av == args_view(args@),
            parse_from(av.skip(i as int), st@) == parse_spec(av),
        decreases args.len() - i,
    {
        let ghost rest = av.skip(i as int);
        assert(rest[0] == args@[i as int]@);
        assert(rest.skip(1) =~= av.skip(i + 1));
        let next = if i + 1 < args.len() {
            assert(rest[1] == args@[i + 1]@);
            assert(rest.skip(2) =~= av.skip(i + 2));
            Some(&args[i + 1])
        } else {
            None
        };
        match step(&args[i], next, st) {
            Step::Done(r) => {
                return r;
            },
            Step::Next(s2) => {
                st = s2;
                i = i + 1;
            },
            Step::SkipNext(s2) => {
                st = s2;
                if i + 1 < args.len() {
                    i = i + 2;
                } else {
                    assert(av.skip(i + 1) =~= Seq::<OsTextModel>::empty());
                    i = i + 1;
                }
            },
        }
    }
    assert(av.skip(i as int) =~= Seq::<OsTextModel>::empty());
    let ghost fin = st@;
    let c = Command::Format {
        config: st.config,
        project_config: st.project_config,
        option_args: st.option_args,
        paths: st.paths,
        stdin_path: st.stdin_path,
        stdout_path: st.stdout_path,
        console: st.console,
    };
    assert(c@ == Outcome::Format(fin));
    Ok(c)
}

/// A copy of the bytes `b`.
fn copy_bytes(b: &[u8]) -> (r: Vec<u8>)
    ensures
        r@ == b@,
{
    let mut r: Vec<u8> = Vec::new();
    let mut i: usize = 0;
    while i < b.len()
        invariant
            i <= b@.len(),
            r@ == b@.take(i as int),
        decreases b.len() - i,
    {
        r.push(b[i]);
        assert(b@.take(i + 1) =~= b@.take(i as int).push(b@[i as int]));
        i = i + 1;
    }
    assert(b@.take(i as int) =~= b@);
    r
}

/// The command the arguments ask for, as the program reads it: a parse
/// error is reported on standard output exactly where some argument asks
/// for errors there (`-X`, `--errors-to-stdout`), even an argument after the
/// one in error.
pub fn parse_command(args: &[OsText]) -> (r: Result<Command, CliError>)
    ensures
        match r {
            Ok(c) => parse_spec(args_view(args@)) == Ok::<Outcome, Seq<char>>(c@),
            Err(e) => parse_spec(args_view(args@)) == Err::<Outcome, Seq<char>>(e.message())
                && e.code() == 2 && e.to_stdout() == requests_errors_to_stdout_spec(
                args_view(args@),
            ),
        },
{
    let to_stdout = requests_errors_to_stdout(args);
    match parse(args) {
        Ok(c) => Ok(c),
        Err(e) => Err(e.with_stdout(to_stdout)),
    }
}

} // verus!
