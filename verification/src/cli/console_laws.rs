//! Laws of the console options: each long spelling (`--quiet`) and its
//! short one (`-q`) set the same console option, and nothing else.

use super::args::{ConsoleModel, ExcludeErrorMode, console_arg_spec};
use vstd::prelude::*;

verus! {

/// The lengths and first characters of the console option names, enough to
/// tell them apart.
proof fn lemma_console_names_known()
    ensures
        "errors-to-stdout"@[5] != "error-on-changes"@[5],
        "n"@.len() == 1 && "n"@[0] == 'n',
        "suffix=none"@.len() == 11 && "suffix=none"@[0] == 's' && "suffix=none"@[1] == 'u' && "suffix=none"@[2] == 'f',
        "r"@.len() == 1 && "r"@[0] == 'r',
        "recursive"@.len() == 9 && "recursive"@[0] == 'r' && "recursive"@[1] == 'e' && "recursive"@[2] == 'c',
        "R"@.len() == 1 && "R"@[0] == 'R',
        "dry-run"@.len() == 7 && "dry-run"@[0] == 'd' && "dry-run"@[1] == 'r' && "dry-run"@[2] == 'y',
        "error-on-changes"@.len() == 16 && "error-on-changes"@[0] == 'e' && "error-on-changes"@[1] == 'r' && "error-on-changes"@[2] == 'r',
        "accept-empty-list"@.len() == 17 && "accept-empty-list"@[0] == 'a' && "accept-empty-list"@[1] == 'c' && "accept-empty-list"@[2] == 'c',
        "Z"@.len() == 1 && "Z"@[0] == 'Z',
        "preserve-date"@.len() == 13 && "preserve-date"@[0] == 'p' && "preserve-date"@[1] == 'r' && "preserve-date"@[2] == 'e',
        "q"@.len() == 1 && "q"@[0] == 'q',
        "quiet"@.len() == 5 && "quiet"@[0] == 'q' && "quiet"@[1] == 'u' && "quiet"@[2] == 'i',
        "Q"@.len() == 1 && "Q"@[0] == 'Q',
        "formatted"@.len() == 9 && "formatted"@[0] == 'f' && "formatted"@[1] == 'o' && "formatted"@[2] == 'r',
        "v"@.len() == 1 && "v"@[0] == 'v',
        "verbose"@.len() == 7 && "verbose"@[0] == 'v' && "verbose"@[1] == 'e' && "verbose"@[2] == 'r',
        "X"@.len() == 1 && "X"@[0] == 'X',
        "errors-to-stdout"@.len() == 16 && "errors-to-stdout"@[0] == 'e' && "errors-to-stdout"@[1] == 'r' && "errors-to-stdout"@[2] == 'r',
        "i"@.len() == 1 && "i"@[0] == 'i',
        "ignore-exclude-errors"@.len() == 21 && "ignore-exclude-errors"@[0] == 'i' && "ignore-exclude-errors"@[1] == 'g' && "ignore-exclude-errors"@[2] == 'n',
        "xi"@.len() == 2 && "xi"@[0] == 'x' && "xi"@[1] == 'i',
        "ignore-exclude-errors-x"@.len() == 23 && "ignore-exclude-errors-x"@[0] == 'i' && "ignore-exclude-errors-x"@[1] == 'g' && "ignore-exclude-errors-x"@[2] == 'n',
{
    reveal_strlit("n");
    reveal_strlit("suffix=none");
    reveal_strlit("r");
    reveal_strlit("recursive");
    reveal_strlit("R");
    reveal_strlit("dry-run");
    reveal_strlit("accept-empty-list");
    reveal_strlit("Z");
    reveal_strlit("preserve-date");
    reveal_strlit("q");
    reveal_strlit("quiet");
    reveal_strlit("Q");
    reveal_strlit("formatted");
    reveal_strlit("v");
    reveal_strlit("verbose");
    reveal_strlit("X");
    reveal_strlit("errors-to-stdout");
    reveal_strlit("i");
    reveal_strlit("ignore-exclude-errors");
    reveal_strlit("xi");
    reveal_strlit("ignore-exclude-errors-x");
    reveal_strlit("error-on-changes");
    assert("errors-to-stdout"@[5] != "error-on-changes"@[5]);
}

/// Every console option, written long (`--name`) or short (`-x`), sets its
/// one console setting and leaves every other as it was; `--recursive`,
/// `-r` and `-R` all ask for a recursive search.
pub proof fn lemma_console_option_spellings(c: ConsoleModel)
    ensures
        console_arg_spec(c, "--suffix=none"@) == (true, ConsoleModel { backup_suffix: None, ..c }),
        console_arg_spec(c, "-n"@) == (true, ConsoleModel { backup_suffix: None, ..c }),
        console_arg_spec(c, "--recursive"@) == (true, ConsoleModel { recursive: true, ..c }),
        console_arg_spec(c, "-r"@) == (true, ConsoleModel { recursive: true, ..c }),
        console_arg_spec(c, "-R"@) == (true, ConsoleModel { recursive: true, ..c }),
        console_arg_spec(c, "--dry-run"@) == (true, ConsoleModel { dry_run: true, ..c }),
        console_arg_spec(c, "--error-on-changes"@) == (true, ConsoleModel { error_on_changes: true, ..c }),
        console_arg_spec(c, "--accept-empty-list"@) == (true, ConsoleModel { accept_empty_list: true, ..c }),
        console_arg_spec(c, "--preserve-date"@) == (true, ConsoleModel { preserve_date: true, ..c }),
        console_arg_spec(c, "-Z"@) == (true, ConsoleModel { preserve_date: true, ..c }),
        console_arg_spec(c, "--quiet"@) == (true, ConsoleModel { quiet: true, ..c }),
        console_arg_spec(c, "-q"@) == (true, ConsoleModel { quiet: true, ..c }),
        console_arg_spec(c, "--formatted"@) == (true, ConsoleModel { formatted_only: true, ..c }),
        console_arg_spec(c, "-Q"@) == (true, ConsoleModel { formatted_only: true, ..c }),
        console_arg_spec(c, "--verbose"@) == (true, ConsoleModel { verbose: true, ..c }),
        console_arg_spec(c, "-v"@) == (true, ConsoleModel { verbose: true, ..c }),
        console_arg_spec(c, "--errors-to-stdout"@) == (true, ConsoleModel { errors_to_stdout: true, ..c }),
        console_arg_spec(c, "-X"@) == (true, ConsoleModel { errors_to_stdout: true, ..c }),
        console_arg_spec(c, "--ignore-exclude-errors"@) == (true, ConsoleModel { exclude_errors: ExcludeErrorMode::Show, ..c }),
        console_arg_spec(c, "-i"@) == (true, ConsoleModel { exclude_errors: ExcludeErrorMode::Show, ..c }),
        console_arg_spec(c, "--ignore-exclude-errors-x"@) == (true, ConsoleModel { exclude_errors: ExcludeErrorMode::Ignore, ..c }),
        console_arg_spec(c, "-xi"@) == (true, ConsoleModel { exclude_errors: ExcludeErrorMode::Ignore, ..c }),
{
    lemma_console_names_known();
    reveal_strlit("--");
    reveal_strlit("-");
    reveal_strlit("--suffix=none");
    reveal_strlit("suffix=none");
    assert("--suffix=none"@.take(2) =~= "--"@);
    assert("--suffix=none"@.skip(2) =~= "suffix=none"@);
    reveal_strlit("-n");
    reveal_strlit("n");
    assert("-n"@.take(1) =~= "-"@);
    assert("-n"@[1] != "--"@[1]);
    assert("-n"@.skip(1) =~= "n"@);
    reveal_strlit("--recursive");
    reveal_strlit("recursive");
    assert("--recursive"@.take(2) =~= "--"@);
    assert("--recursive"@.skip(2) =~= "recursive"@);
    reveal_strlit("-r");
    reveal_strlit("r");
    assert("-r"@.take(1) =~= "-"@);
    assert("-r"@[1] != "--"@[1]);
    assert("-r"@.skip(1) =~= "r"@);
    reveal_strlit("-R");
    reveal_strlit("R");
    assert("-R"@.take(1) =~= "-"@);
    assert("-R"@[1] != "--"@[1]);
    assert("-R"@.skip(1) =~= "R"@);
    reveal_strlit("--dry-run");
    reveal_strlit("dry-run");
    assert("--dry-run"@.take(2) =~= "--"@);
    assert("--dry-run"@.skip(2) =~= "dry-run"@);
    reveal_strlit("--error-on-changes");
    reveal_strlit("error-on-changes");
    assert("--error-on-changes"@.take(2) =~= "--"@);
    assert("--error-on-changes"@.skip(2) =~= "error-on-changes"@);
    reveal_strlit("--accept-empty-list");
    reveal_strlit("accept-empty-list");
    assert("--accept-empty-list"@.take(2) =~= "--"@);
    assert("--accept-empty-list"@.skip(2) =~= "accept-empty-list"@);
    reveal_strlit("--preserve-date");
    reveal_strlit("preserve-date");
    assert("--preserve-date"@.take(2) =~= "--"@);
    assert("--preserve-date"@.skip(2) =~= "preserve-date"@);
    reveal_strlit("-Z");
    reveal_strlit("Z");
    assert("-Z"@.take(1) =~= "-"@);
    assert("-Z"@[1] != "--"@[1]);
    assert("-Z"@.skip(1) =~= "Z"@);
    reveal_strlit("--quiet");
    reveal_strlit("quiet");
    assert("--quiet"@.take(2) =~= "--"@);
    assert("--quiet"@.skip(2) =~= "quiet"@);
    reveal_strlit("-q");
    reveal_strlit("q");
    assert("-q"@.take(1) =~= "-"@);
    assert("-q"@[1] != "--"@[1]);
    assert("-q"@.skip(1) =~= "q"@);
    reveal_strlit("--formatted");
    reveal_strlit("formatted");
    assert("--formatted"@.take(2) =~= "--"@);
    assert("--formatted"@.skip(2) =~= "formatted"@);
    reveal_strlit("-Q");
    reveal_strlit("Q");
    assert("-Q"@.take(1) =~= "-"@);
    assert("-Q"@[1] != "--"@[1]);
    assert("-Q"@.skip(1) =~= "Q"@);
    reveal_strlit("--verbose");
    reveal_strlit("verbose");
    assert("--verbose"@.take(2) =~= "--"@);
    assert("--verbose"@.skip(2) =~= "verbose"@);
    reveal_strlit("-v");
    reveal_strlit("v");
    assert("-v"@.take(1) =~= "-"@);
    assert("-v"@[1] != "--"@[1]);
    assert("-v"@.skip(1) =~= "v"@);
    reveal_strlit("--errors-to-stdout");
    reveal_strlit("errors-to-stdout");
    assert("--errors-to-stdout"@.take(2) =~= "--"@);
    assert("--errors-to-stdout"@.skip(2) =~= "errors-to-stdout"@);
    reveal_strlit("-X");
    reveal_strlit("X");
    assert("-X"@.take(1) =~= "-"@);
    assert("-X"@[1] != "--"@[1]);
    assert("-X"@.skip(1) =~= "X"@);
    reveal_strlit("--ignore-exclude-errors");
    reveal_strlit("ignore-exclude-errors");
    assert("--ignore-exclude-errors"@.take(2) =~= "--"@);
    assert("--ignore-exclude-errors"@.skip(2) =~= "ignore-exclude-errors"@);
    reveal_strlit("-i");
    reveal_strlit("i");
    assert("-i"@.take(1) =~= "-"@);
    assert("-i"@[1] != "--"@[1]);
    assert("-i"@.skip(1) =~= "i"@);
    reveal_strlit("--ignore-exclude-errors-x");
    reveal_strlit("ignore-exclude-errors-x");
    assert("--ignore-exclude-errors-x"@.take(2) =~= "--"@);
    assert("--ignore-exclude-errors-x"@.skip(2) =~= "ignore-exclude-errors-x"@);
    reveal_strlit("-xi");
    reveal_strlit("xi");
    assert("-xi"@.take(1) =~= "-"@);
    assert("-xi"@[1] != "--"@[1]);
    assert("-xi"@.skip(1) =~= "xi"@);
}

} // verus!
