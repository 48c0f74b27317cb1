use cstyle::cli::args::{
    apply_console_arg, parse, parse_command, requests_errors_to_stdout, Command, ConfigSelection,
    ConsoleOptions, ExcludeErrorMode, ProjectConfigSelection,
};
use cstyle::cli::{CliError, OsText};
use cstyle::config::apply_command_line_args;

fn arg(value: &str) -> OsText {
    OsText {
        bytes: value.as_bytes().to_vec(),
        text: Some(value.to_string()),
    }
}

fn raw(value: &[u8]) -> OsText {
    OsText {
        bytes: value.to_vec(),
        text: None,
    }
}

fn args(values: &[&str]) -> Vec<OsText> {
    values.iter().map(|value| arg(value)).collect()
}

fn path(value: &str) -> Vec<u8> {
    value.as_bytes().to_vec()
}

#[test]
fn parses_help_and_version_commands() {
    assert_eq!(parse(&args(&["--help"])).unwrap(), Command::Help);
    assert_eq!(parse(&args(&["-h"])).unwrap(), Command::Help);
    assert_eq!(parse(&args(&["-?"])).unwrap(), Command::Help);
    assert_eq!(parse(&args(&["--version"])).unwrap(), Command::Version);
    assert_eq!(parse(&args(&["-V"])).unwrap(), Command::Version);
}

#[test]
fn parses_non_utf8_default_config_path() {
    let value = b"config-\xff.rc".to_vec();
    let mut option = b"--options=".to_vec();
    option.extend_from_slice(&value);
    let command = parse(&[raw(&option)]).expect("parse options path");
    let Command::Format { config, paths, .. } = command else {
        panic!("expected format command");
    };

    assert_eq!(config, ConfigSelection::File(value));
    assert!(paths.is_empty());
}

#[test]
fn parses_non_utf8_project_config_name() {
    let mut option = b"--project=project-".to_vec();
    option.push(0xff);
    option.extend_from_slice(b".rc");
    let command = parse(&[raw(&option)]).expect("parse project name");
    let Command::Format {
        project_config,
        paths,
        ..
    } = command
    else {
        panic!("expected format command");
    };

    let ProjectConfigSelection::FileName(name) = project_config else {
        panic!("expected project config file name");
    };
    assert_eq!(name, b"project-\xff.rc".to_vec());
    assert!(paths.is_empty());
}

#[test]
fn parses_options_paths_and_legacy_mode_form() {
    assert_eq!(
        parse(&args(&[
            "--indent=spaces=2",
            "--mode",
            "c",
            "mode=c",
            "input.c",
        ]))
        .unwrap(),
        Command::Format {
            config: ConfigSelection::Auto,
            project_config: ProjectConfigSelection::Auto,
            option_args: vec![
                "--indent=spaces=2".to_string(),
                "--mode=c".to_string(),
                "mode=c".to_string()
            ],
            paths: vec![path("input.c")],
            stdin_path: None,
            stdout_path: None,
            console: ConsoleOptions::default(),
        }
    );
}

#[test]
fn plain_file_names_that_resemble_options_remain_paths() {
    let command =
        parse(&args(&["quiet", "suffix=.bak", "name=value.c"])).expect("parse file names");
    let Command::Format {
        option_args,
        paths,
        console,
        ..
    } = command
    else {
        panic!("expected format command");
    };

    assert!(option_args.is_empty());
    assert_eq!(
        paths,
        [path("quiet"), path("suffix=.bak"), path("name=value.c")]
    );
    assert_eq!(console, ConsoleOptions::default());
}

#[test]
fn parses_legacy_console_options() {
    assert_eq!(
        parse(&args(&[
            "--options=.astylerc",
            "-Q",
            "-n",
            "-r",
            "*.c",
            "*.h",
        ]))
        .unwrap(),
        Command::Format {
            config: ConfigSelection::File(path(".astylerc")),
            project_config: ProjectConfigSelection::Auto,
            option_args: Vec::new(),
            paths: vec![path("*.c"), path("*.h")],
            stdin_path: None,
            stdout_path: None,
            console: ConsoleOptions {
                backup_suffix: None,
                recursive: true,
                formatted_only: true,
                ..ConsoleOptions::default()
            },
        }
    );
}

#[test]
fn parses_reporting_backup_exclude_and_error_console_options() {
    assert_eq!(
        parse(&args(&[
            "--dry-run",
            "--error-on-changes",
            "--accept-empty-list",
            "--suffix=.bak",
            "--preserve-date",
            "--verbose",
            "--errors-to-stdout",
            "--exclude=skip.c",
            "--ignore-exclude-errors-x",
            "input.c",
        ]))
        .unwrap(),
        Command::Format {
            config: ConfigSelection::Auto,
            project_config: ProjectConfigSelection::Auto,
            option_args: Vec::new(),
            paths: vec![path("input.c")],
            stdin_path: None,
            stdout_path: None,
            console: ConsoleOptions {
                backup_suffix: Some(".bak".to_string()),
                recursive: false,
                dry_run: true,
                error_on_changes: true,
                accept_empty_list: true,
                preserve_date: true,
                quiet: false,
                formatted_only: false,
                verbose: true,
                errors_to_stdout: true,
                excludes: vec!["skip.c".to_string()],
                exclude_errors: ExcludeErrorMode::Ignore,
            },
        }
    );
}

#[test]
fn parses_stdio_redirect_options() {
    assert_eq!(
        parse(&args(&["--stdin=input.c", "--stdout=output.c"])).unwrap(),
        Command::Format {
            config: ConfigSelection::Auto,
            project_config: ProjectConfigSelection::Auto,
            option_args: Vec::new(),
            paths: Vec::new(),
            stdin_path: Some(path("input.c")),
            stdout_path: Some(path("output.c")),
            console: ConsoleOptions::default(),
        }
    );
}

#[test]
fn parses_non_utf8_stdio_paths() {
    let input = b"input-\xff.c".to_vec();
    let output = b"output-\xfe.c".to_vec();
    let mut stdin_arg = b"--stdin=".to_vec();
    stdin_arg.extend_from_slice(&input);
    let mut stdout_arg = b"--stdout=".to_vec();
    stdout_arg.extend_from_slice(&output);

    let command = parse(&[raw(&stdin_arg), raw(&stdout_arg)]).expect("parse stdio paths");
    let Command::Format {
        stdin_path,
        stdout_path,
        paths,
        ..
    } = command
    else {
        panic!("expected format command");
    };

    assert_eq!(stdin_path, Some(input));
    assert_eq!(stdout_path, Some(output));
    assert!(paths.is_empty());
}

#[test]
fn parses_project_options() {
    assert_eq!(
        parse(&args(&["--project", "*.c"])).unwrap(),
        Command::Format {
            config: ConfigSelection::Auto,
            project_config: ProjectConfigSelection::FileName(path(".astylerc")),
            option_args: Vec::new(),
            paths: vec![path("*.c")],
            stdin_path: None,
            stdout_path: None,
            console: ConsoleOptions::default(),
        }
    );
    assert_eq!(
        parse(&args(&["--project=custom.rc", "*.c"])).unwrap(),
        Command::Format {
            config: ConfigSelection::Auto,
            project_config: ProjectConfigSelection::FileName(path("custom.rc")),
            option_args: Vec::new(),
            paths: vec![path("*.c")],
            stdin_path: None,
            stdout_path: None,
            console: ConsoleOptions::default(),
        }
    );
    assert_eq!(
        parse(&args(&["--project=none", "*.c"])).unwrap(),
        Command::Format {
            config: ConfigSelection::Auto,
            project_config: ProjectConfigSelection::Off,
            option_args: Vec::new(),
            paths: vec![path("*.c")],
            stdin_path: None,
            stdout_path: None,
            console: ConsoleOptions::default(),
        }
    );
}

#[test]
fn rejects_mode_without_value() {
    let error = parse(&args(&["--mode"])).expect_err("missing mode value must fail");

    assert_eq!(error.exit_code(), 2);
    assert_eq!(error.to_string(), "missing value for --mode");
}

#[test]
fn rejects_options_without_value() {
    let error = parse(&args(&["--options="])).expect_err("missing options value must fail");

    assert_eq!(error.exit_code(), 2);
    assert_eq!(error.to_string(), "missing value for --options");
}

#[test]
fn rejects_project_without_value() {
    let error = parse(&args(&["--project="])).expect_err("missing project value must fail");

    assert_eq!(error.exit_code(), 2);
    assert_eq!(error.to_string(), "missing value for --project");
}

#[test]
fn rejects_stdio_redirect_without_value() {
    let error = parse(&args(&["--stdin="])).expect_err("missing stdin value must fail");
    assert_eq!(error.exit_code(), 2);
    assert_eq!(error.to_string(), "missing value for --stdin");

    let error = parse(&args(&["--stdout="])).expect_err("missing stdout value must fail");
    assert_eq!(error.exit_code(), 2);
    assert_eq!(error.to_string(), "missing value for --stdout");
}

#[test]
fn no_backup_option_stays_set_after_later_suffix_options() {
    let mut console = ConsoleOptions::default();

    assert!(apply_console_arg(&mut console, "suffix=none"));
    assert!(apply_console_arg(&mut console, "suffix=.bak"));

    assert_eq!(console.backup_suffix, None);
}

#[test]
fn mode_value_that_is_no_utf8_is_rejected() {
    let error = parse(&[arg("--mode"), raw(b"c\xff")]).expect_err("non-UTF-8 mode must fail");
    assert_eq!(error.exit_code(), 2);
    assert_eq!(error.to_string(), "invalid UTF-8 value for --mode");
}

#[test]
fn mixed_short_bundle_splits_console_and_formatter_options() {
    let command = parse(&args(&["--options=none", "-nA1p", "input.c"])).expect("parse bundle");
    let Command::Format {
        config,
        option_args,
        console,
        ..
    } = command
    else {
        panic!("expected format command");
    };
    assert_eq!(config, ConfigSelection::Off);
    assert_eq!(option_args, ["-A1", "-p"]);
    assert_eq!(console.backup_suffix, None);
}

#[test]
fn cli_rejects_bare_short_option_marker() {
    let command = parse(&args(&["--options=none", "-"])).expect("parse bare marker");
    let Command::Format { option_args, .. } = command else {
        panic!("expected format command");
    };
    assert_eq!(option_args, ["-"]);
    let mut options = cstyle::config::FormatOptions::default();
    let error = apply_command_line_args(&mut options, &option_args)
        .expect_err("bare short option marker must fail");
    let error = CliError::option(&error);

    assert_eq!(error.exit_code(), 2);
    assert!(error.to_string().contains("unknown option '-'"));
}

#[test]
fn errors_to_stdout_is_found_before_parsing() {
    for flag in ["--errors-to-stdout", "-X", "-nX"] {
        let args = args(&[flag, "--options="]);
        assert!(requests_errors_to_stdout(&args), "{flag}");
        let error = parse(&args).expect_err("empty options value must fail");
        let error = error.with_stdout(requests_errors_to_stdout(&args));
        assert_eq!(error.exit_code(), 2);
        assert!(error.errors_to_stdout());
    }
    assert!(!requests_errors_to_stdout(&args(&["--options=", "X"])));
}

#[test]
fn console_bundle_applies_leading_options_before_a_failing_one() {
    let mut console = ConsoleOptions::default();
    assert!(!apply_console_arg(&mut console, "-n2"));
    assert_eq!(console.backup_suffix, None);
    assert!(apply_console_arg(&mut console, "-qv"));
    assert!(console.quiet && console.verbose);
}

#[test]
fn parse_errors_honor_errors_to_stdout() {
    for flag in ["--errors-to-stdout", "-X"] {
        let error = parse_command(&args(&[flag, "--options="])).expect_err("empty options value must fail");
        assert_eq!(error.exit_code(), 2);
        assert!(error.errors_to_stdout());
    }
    let error = parse_command(&args(&["--options=", "-X"])).expect_err("empty options value must fail");
    assert!(error.errors_to_stdout());
    let error = parse_command(&args(&["--options="])).expect_err("empty options value must fail");
    assert!(!error.errors_to_stdout());
}
