use cstyle::cli::report::{
    config_failure, option_failure, request_error, dry_run_outcome, file_status_line, handle_unmatched_excludes, summary_line,
};
use cstyle::cli::args::{ConsoleOptions, ExcludeErrorMode};
use cstyle::cli::targets::{
    check_expanded, exclude_matches, keep_entry, mark_matching_excludes, path_segments_contain,
    plan_expansion, plan_target, split_target_patterns, target_is_pattern, target_wildcard_match,
    validate_target, TargetPlan, TargetStat, plan_entry, descends_into, takes_file, EntryPlan,
};
use cstyle::cli::wildcard::{wildcard_match, wildcard_match_bytes, wildcard_match_sequence};
use cstyle::cli::OsText;

fn chars(value: &str) -> Vec<char> {
    value.chars().collect()
}

fn name(value: &str) -> OsText {
    OsText {
        bytes: value.as_bytes().to_vec(),
        text: Some(value.to_string()),
    }
}

fn raw(value: &[u8]) -> OsText {
    OsText {
        bytes: value.to_vec(),
        text: None,
    }
}

fn file_name(path: &str) -> &str {
    path.rsplit('/').next().unwrap_or("")
}

fn excluded(pattern: &str, path: &str) -> bool {
    exclude_matches(pattern, &chars(path), &chars(file_name(path)))
}

#[test]
fn every_exclude_matching_the_same_path_counts_as_matched() {
    let mut paths = vec!["src/source.c".to_string()];
    let excludes = vec!["*.c".to_string(), "source.c".to_string()];
    let mut matched = vec![false; excludes.len()];

    paths.retain(|path| {
        !mark_matching_excludes(&chars(path), &chars(file_name(path)), &excludes, &mut matched)
    });

    assert!(paths.is_empty());
    assert_eq!(matched, vec![true, true]);
}

#[test]
fn exclude_matches_directory_segments_on_boundaries() {
    let path = "src/firmware/lib/picolibc/iconv.c";
    assert!(excluded("src/firmware/lib", path));
    assert!(excluded("firmware/lib", path));
    assert!(excluded("lib", path));
    assert!(excluded("picolibc", path));
    assert!(excluded("iconv.c", path));

    assert!(!excluded("ib", path));
    assert!(!excluded("lib/picolib", path));
    assert!(!excluded("lib", "src/mylib/y.c"));
}

#[test]
fn partial_unicode_exclude_segment_does_not_panic_or_match() {
    assert!(!excluded("α", "αβ/source.c"));
}

#[test]
fn rejects_recursive_without_wildcard() {
    let error = target_is_pattern(&name("input.c"), true)
        .expect_err("recursive without wildcard must fail");

    assert_eq!(error.exit_code(), 2);
    assert_eq!(error.to_string(), "recursive option with no wildcard");
}

#[test]
fn direct_non_utf8_target_does_not_require_pattern_decoding() {
    assert_eq!(target_is_pattern(&raw(b"source-\xff.c"), false).unwrap(), false);
}

#[test]
fn unmatched_excludes_follow_console_policy() {
    let mut console = ConsoleOptions {
        excludes: vec!["missing.c".to_string()],
        ..ConsoleOptions::default()
    };

    let error = handle_unmatched_excludes(&console, &vec![false])
        .expect_err("unmatched exclude must fail");
    assert_eq!(error.to_string(), "unmatched exclude missing.c");

    console.exclude_errors = ExcludeErrorMode::Ignore;
    handle_unmatched_excludes(&console, &vec![false]).expect("ignored unmatched exclude");

    console.exclude_errors = ExcludeErrorMode::Show;
    assert_eq!(
        handle_unmatched_excludes(&console, &vec![false]).unwrap(),
        ["Unmatched exclude missing.c"]
    );
    console.quiet = true;
    assert!(handle_unmatched_excludes(&console, &vec![false]).unwrap().is_empty());
}

#[test]
fn wildcard_matching_of_names() {
    assert!(wildcard_match(&chars("*.c"), &chars("main.c")));
    assert!(wildcard_match(&chars("m?in.*"), &chars("main.c")));
    assert!(!wildcard_match(&chars("*.h"), &chars("main.c")));
    assert!(wildcard_match(&chars("*a*b"), &chars("xaab")));
    assert!(!wildcard_match(&chars("a"), &chars("")));
    assert!(wildcard_match(&chars("**"), &chars("")));
    assert!(wildcard_match_bytes(b"*.c", b"x\xff.c"));
    assert!(!wildcard_match_bytes(b"*.c", b"x\xff.h"));
}

#[test]
fn wildcard_stars_backtrack_like_glob() {
    assert!(wildcard_match(&chars("a*b?d"), &chars("aXbXbcd")));
    assert!(wildcard_match(&chars("*ab"), &chars("aab")));
    assert!(!wildcard_match(&chars("*ab*c"), &chars("abab")));
    assert!(wildcard_match(&chars("*?"), &chars("x")));
    assert!(!wildcard_match(&chars("*?"), &chars("")));
}

#[test]
fn wildcard_star_in_text_is_taken_literally_first() {
    assert!(!wildcard_match(&chars("*a"), &chars("*ba")));
}

#[test]
fn segments_and_patterns_of_targets() {
    assert!(path_segments_contain(&chars("a/b/c"), &chars("b")));
    assert!(path_segments_contain(&chars("yx/x/x"), &chars("x/x")));
    assert!(!path_segments_contain(&chars("yx/x"), &chars("x/x")));
    assert!(!path_segments_contain(&chars("a/b"), &chars("")));

    let patterns = split_target_patterns(&name(" *.c ; *.h,,"), "*.c;*.h").unwrap();
    assert_eq!(patterns.len(), 2);
    assert_eq!(patterns[0].text.as_deref(), Some("*.c"));
    assert_eq!(patterns[1].bytes, b"*.h".to_vec());
    let error = split_target_patterns(&name(" , ;"), " , ;").expect_err("no pattern");
    assert_eq!(error.to_string(), "missing filename in  , ;");
    assert_eq!(error.exit_code(), 2);
    let bytes = split_target_patterns(&raw(b"a\xff*, b"), "a?*, b").unwrap();
    assert_eq!(bytes[0].bytes, b"a\xff*".to_vec());
    assert_eq!(bytes[1].bytes, b"b".to_vec());

    let (wildcard, search) = plan_expansion(&patterns, true).unwrap();
    assert!(wildcard && search);
    let plain = vec![name("a.c"), name("b.c")];
    assert_eq!(plan_expansion(&plain, false).unwrap(), (false, true));
    assert!(plan_expansion(&plain, true).is_err());
}

#[test]
fn directory_entries_and_target_checks() {
    let patterns = vec![name("*.c")];
    assert!(keep_entry(&name("a.c"), true, Some(".orig"), &patterns));
    assert!(!keep_entry(&name("a.c.orig"), true, Some(".orig"), &vec![name("*")]));
    assert!(keep_entry(&name("a.c.orig"), true, None, &vec![name("*")]));
    assert!(!keep_entry(&name("a.c"), false, None, &patterns));
    assert!(!keep_entry(&name("a.h"), true, None, &patterns));
    assert!(target_wildcard_match(&raw(b"*.c"), &name("x.c")));

    assert!(check_expanded(0, true, true, "*.c").is_ok());
    let error = check_expanded(0, true, false, "a.c,b.c").expect_err("nothing found");
    assert_eq!(error.to_string(), "no file to process a.c,b.c");
    assert_eq!(error.exit_code(), 1);

    assert!(validate_target("a.c", &TargetStat::File).is_ok());
    let error = validate_target("dir", &TargetStat::Directory).unwrap_err();
    assert_eq!(error.exit_code(), 2);
    assert_eq!(error.to_string(), "directory targets are not supported: dir");
    let error = validate_target("x", &TargetStat::Missing).unwrap_err();
    assert_eq!(error.to_string(), "input file not found: x");
    let error = validate_target("x", &TargetStat::Unreadable("denied".to_string())).unwrap_err();
    assert_eq!(error.to_string(), "failed to inspect x: denied");
    assert_eq!(error.exit_code(), 1);
}

#[test]
fn status_summary_and_dry_run_reports() {
    let mut console = ConsoleOptions::default();
    assert_eq!(
        file_status_line("a.c", true, &console).as_deref(),
        Some("Formatted  a.c")
    );
    console.formatted_only = true;
    assert_eq!(file_status_line("a.c", false, &console), None);
    assert_eq!(summary_line(2, 10), " 2 formatted   10 unchanged");
    console.dry_run = true;
    console.error_on_changes = true;
    assert!(dry_run_outcome(&console, 0).is_ok());
    let error = dry_run_outcome(&console, 1).unwrap_err();
    assert_eq!(error.exit_code(), 1);
    assert_eq!(error.to_string(), "dry-run found files that would change");
}

#[test]
fn exclude_segments_match_at_any_aligned_occurrence() {
    assert!(path_segments_contain(&chars("xlib/lib/lib"), &chars("lib/lib")));
    assert!(path_segments_contain(&chars("src/lib/x.c"), &chars("lib")));
    assert!(!path_segments_contain(&chars("src/mylib/x.c"), &chars("lib")));
    assert!(!path_segments_contain(&chars("src/lib"), &chars("")));
}

#[test]
fn recursive_targets_without_pattern_characters_are_refused() {
    for target in ["input.c", "a.c,b.c", "a.c;"] {
        let error = plan_target(&name(target), target, true).expect_err("needs a wildcard");
        assert_eq!(error.exit_code(), 2);
        assert_eq!(error.to_string(), "recursive option with no wildcard");
    }
}

#[test]
fn plain_target_names_are_taken_as_they_are() {
    assert!(matches!(plan_target(&raw(b"source-\xff.c"), "source-?.c", false), Ok(TargetPlan::Direct)));
    assert!(matches!(plan_target(&name("main.c"), "main.c", false), Ok(TargetPlan::Direct)));
}

#[test]
fn pattern_target_names_are_planned_by_their_patterns() {
    match plan_target(&name("*.c"), "*.c", true) {
        Ok(TargetPlan::Search { patterns, has_wildcard }) => {
            assert!(has_wildcard);
            assert_eq!(patterns.len(), 1);
            assert_eq!(patterns[0].bytes, b"*.c".to_vec());
        }
        other => panic!("unexpected plan {other:?}"),
    }
    match plan_target(&name("a.c, b.c"), "a.c, b.c", false) {
        Ok(TargetPlan::Search { patterns, has_wildcard }) => {
            assert!(!has_wildcard);
            assert_eq!(patterns.iter().map(|p| p.bytes.clone()).collect::<Vec<_>>(), vec![b"a.c".to_vec(), b"b.c".to_vec()]);
        }
        other => panic!("unexpected plan {other:?}"),
    }
    match plan_target(&name("a.c,"), "a.c,", false) {
        Ok(TargetPlan::Single(pattern)) => assert_eq!(pattern.bytes, b"a.c".to_vec()),
        other => panic!("unexpected plan {other:?}"),
    }
    let error = plan_target(&name(" , ;"), " , ;", false).expect_err("no pattern");
    assert_eq!(error.exit_code(), 2);
    assert_eq!(error.to_string(), "missing filename in  , ;");
}

#[test]
fn wildcard_sequences_match_any_element_type() {
    let units = |text: &str| text.encode_utf16().collect::<Vec<u16>>();
    assert!(wildcard_match_sequence(&units("*.c"), &units("a.c"), 0x2a, 0x3f));
    assert!(!wildcard_match_sequence(&units("*.c"), &units("a.h"), 0x2a, 0x3f));
    assert!(wildcard_match_sequence(&units("a?c"), &units("abc"), 0x2a, 0x3f));
    assert!(wildcard_match_sequence(&[1i32, 0, 3], &[1, 2, 2, 3], 0, 9));
}

#[test]
fn directory_entries_are_planned_by_name_and_kind() {
    let patterns = vec![name("*.c")];
    assert_eq!(plan_entry(&name(".hidden.c"), false, true, None, &patterns), EntryPlan::Skip);
    assert_eq!(plan_entry(&name(".git"), true, false, None, &patterns), EntryPlan::Skip);
    assert_eq!(plan_entry(&name("src"), true, false, None, &patterns), EntryPlan::Directory);
    assert_eq!(plan_entry(&name("a.c"), false, true, None, &patterns), EntryPlan::File);
    assert_eq!(plan_entry(&name("a.h"), false, true, None, &patterns), EntryPlan::Skip);
    assert_eq!(plan_entry(&name("a.c.orig"), false, true, Some(".orig"), &vec![name("*")]), EntryPlan::Skip);
    assert_eq!(plan_entry(&name("a.c"), false, false, None, &patterns), EntryPlan::Skip);
    assert!(descends_into(false, true, true));
    assert!(!descends_into(true, true, true));
    assert!(!descends_into(false, false, true));
    assert!(!descends_into(false, true, false));
    assert!(takes_file(true, false));
    assert!(!takes_file(false, false));
    assert!(!takes_file(true, true));
}

#[test]
fn extra_match_flags_beyond_the_excludes_stay_as_they_are() {
    let excludes = vec!["a.c".to_string()];
    let mut matched = vec![false, true, false];
    assert!(mark_matching_excludes(&chars("src/a.c"), &chars("a.c"), &excludes, &mut matched));
    assert_eq!(matched, vec![true, true, false]);
}

#[test]
fn request_errors_follow_the_console_options() {
    let mut console = ConsoleOptions::default();
    let error = cstyle::config::ConfigError::new("bad.rc:1: unknown option 'x'".to_string());
    let failure = config_failure(&error, &console);
    assert_eq!(failure.to_string(), "config error: bad.rc:1: unknown option 'x'");
    assert_eq!(failure.exit_code(), 2);
    assert!(!failure.errors_to_stdout());
    console.errors_to_stdout = true;
    let failure = option_failure(&error, &console);
    assert_eq!(failure.to_string(), "option error: bad.rc:1: unknown option 'x'. Try 'cstyle --help'.");
    assert!(failure.errors_to_stdout());
    let failure = request_error(cstyle::cli::CliError::new("no file to process x".to_string(), 1), &console);
    assert_eq!(failure.exit_code(), 1);
    assert!(failure.errors_to_stdout());
}
