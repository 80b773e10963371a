use manifest_sync::{
    build_feature_set, get_workspace_members, members_from_view, ConfigOptions, Error,
};

fn config(allowlist: Vec<&str>, cli: bool, updater: bool, tray: bool) -> ConfigOptions {
    ConfigOptions {
        allowlist_features: allowlist.into_iter().map(String::from).collect(),
        has_cli: cli,
        updater_active: updater,
        has_system_tray: tray,
    }
}

#[test]
fn feature_set_keeps_fixed_order() {
    let cfg = config(vec!["api", "shell-open"], true, true, true);
    assert_eq!(
        build_feature_set(&cfg),
        vec!["api", "shell-open", "cli", "updater", "system-tray"]
    );
}

#[test]
fn feature_set_skips_absent_subsystems() {
    let cfg = config(vec!["api"], false, true, false);
    assert_eq!(build_feature_set(&cfg), vec!["api", "updater"]);
    let cfg = config(vec![], false, false, true);
    assert_eq!(build_feature_set(&cfg), vec!["system-tray"]);
    let cfg = config(vec![], false, false, false);
    assert_eq!(build_feature_set(&cfg), Vec::<String>::new());
}

#[test]
fn no_workspace_table_means_no_members() {
    let members = get_workspace_members("[package]\nname = \"app\"\n").unwrap();
    assert_eq!(members, Vec::<String>::new());
}

#[test]
fn workspace_members_come_in_document_order() {
    let members = get_workspace_members("[workspace]\nmembers = [\"a\", \"b\"]\n").unwrap();
    assert_eq!(members, vec!["a", "b"]);
}

#[test]
fn workspace_without_members_violates_schema() {
    let err = get_workspace_members("[workspace]\nresolver = \"2\"\n").unwrap_err();
    assert_eq!(err, Error::WorkspaceSchema);
}

#[test]
fn workspace_members_not_an_array_violates_schema() {
    let err = get_workspace_members("[workspace]\nmembers = \"a\"\n").unwrap_err();
    assert_eq!(err, Error::WorkspaceSchema);
}

#[test]
fn workspace_member_not_a_string_violates_schema() {
    let err = get_workspace_members("[workspace]\nmembers = [\"a\", 3]\n").unwrap_err();
    assert_eq!(err, Error::WorkspaceSchema);
}

#[test]
fn workspace_read_of_malformed_text_is_a_parse_error() {
    let err = get_workspace_members("[workspace\n").unwrap_err();
    assert_eq!(err, Error::Parse);
}

#[test]
fn members_view_without_workspace_is_empty() {
    assert_eq!(members_from_view(None).unwrap(), Vec::<String>::new());
}

#[test]
fn members_view_cases() {
    assert_eq!(members_from_view(Some(None)).unwrap_err(), Error::WorkspaceSchema);
    let good = Some(Some(vec![Some("a".to_string()), Some("b".to_string())]));
    assert_eq!(members_from_view(good).unwrap(), vec!["a", "b"]);
    let bad = Some(Some(vec![Some("a".to_string()), None]));
    assert_eq!(members_from_view(bad).unwrap_err(), Error::WorkspaceSchema);
}
