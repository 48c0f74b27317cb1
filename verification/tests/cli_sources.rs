use cstyle::cli::sources::{
    env_fallback, project_file_names, project_options_name, search_anchor, search_start_dir,
};

fn set(value: &str) -> Option<Vec<u8>> {
    Some(value.as_bytes().to_vec())
}

#[test]
fn primary_setting_comes_before_its_fallback() {
    assert_eq!(env_fallback(set("cstyle.rc"), set("legacy.rc")), set("cstyle.rc"));
}

#[test]
fn fallback_setting_is_used_when_the_primary_is_unset() {
    assert_eq!(env_fallback(None, set("legacy.rc")), set("legacy.rc"));
}

#[test]
fn empty_primary_setting_uses_the_nonempty_fallback() {
    assert_eq!(env_fallback(set(""), set("fallback.rc")), set("fallback.rc"));
}

#[test]
fn empty_or_missing_settings_name_nothing() {
    assert_eq!(env_fallback(set(""), set("")), None);
    assert_eq!(env_fallback(None, None), None);
}

#[test]
fn project_setting_none_turns_project_files_off() {
    assert_eq!(project_options_name(set("none"), set("legacy-project.rc")), None);
    assert_eq!(project_options_name(None, set("none")), None);
    assert_eq!(project_options_name(set("nonesuch"), None), set("nonesuch"));
}

#[test]
fn project_setting_prefers_the_primary_name() {
    assert_eq!(
        project_options_name(set("cstyle-project.rc"), set("legacy-project.rc")),
        set("cstyle-project.rc")
    );
    assert_eq!(project_options_name(set(""), set("legacy-project.rc")), set("legacy-project.rc"));
}

#[test]
fn project_search_starts_beside_the_first_target_or_the_stdin_path() {
    let targets = vec![b"src/a.c".to_vec(), b"lib/b.c".to_vec()];
    assert_eq!(search_anchor(&targets, &Some(b"in/x.c".to_vec())), Some(b"src/a.c".to_vec()));
    assert_eq!(search_anchor(&Vec::new(), &Some(b"in/x.c".to_vec())), Some(b"in/x.c".to_vec()));
    assert_eq!(search_anchor(&Vec::new(), &None), None);
    assert_eq!(search_start_dir(Some(b"src".to_vec())), b"src".to_vec());
    assert_eq!(search_start_dir(Some(Vec::new())), b".".to_vec());
    assert_eq!(search_start_dir(None), b".".to_vec());
}

#[test]
fn legacy_project_option_files_are_also_found_by_their_old_name() {
    assert_eq!(project_file_names(b".astylerc"), vec![b".astylerc".to_vec(), b"_astylerc".to_vec()]);
    assert_eq!(project_file_names(b"project.rc"), vec![b"project.rc".to_vec()]);
    assert_eq!(project_file_names(b".cstylerc"), vec![b".cstylerc".to_vec()]);
}
