use manifest_sync::{rewrite_manifest, ConfigOptions, Error};

fn config(allowlist: Vec<&str>, cli: bool, updater: bool, tray: bool) -> ConfigOptions {
    ConfigOptions {
        allowlist_features: allowlist.into_iter().map(String::from).collect(),
        has_cli: cli,
        updater_active: updater,
        has_system_tray: tray,
    }
}

fn parsed_features(text: &str) -> Vec<String> {
    let doc: toml_edit::DocumentMut = text.parse().unwrap();
    doc["dependencies"]["tauri"]["features"]
        .as_array()
        .unwrap()
        .iter()
        .map(|v| v.as_str().unwrap().to_string())
        .collect()
}

#[test]
fn full_table_marker_carried_last() {
    let input = "# top comment\n\
[package]\n\
name = \"app\"   # keep me\n\
\n\
[dependencies]\n\
serde = \"1\"\n\
\n\
[dependencies.tauri]\n\
version = \"1.0.0\"\n\
features = [\"old\", \"menu\"]\n\
\n\
[dev-dependencies]\n\
other = \"2\"\n";
    let cfg = config(vec!["api", "shell-open"], true, false, false);
    let rw = rewrite_manifest(input, &cfg).unwrap();
    assert_eq!(
        rw.manifest.features,
        vec!["api", "shell-open", "cli", "menu"]
    );
    let out = rw.new_text.unwrap();
    assert_eq!(parsed_features(&out), vec!["api", "shell-open", "cli", "menu"]);
    // every line but the features line is preserved byte for byte
    for line in input.lines() {
        if !line.contains("features") {
            assert!(out.contains(line));
        }
    }
    let reparsed: toml_edit::DocumentMut = out.parse().unwrap();
    assert_eq!(
        reparsed["dependencies"]["tauri"]["version"].as_str(),
        Some("1.0.0")
    );
}

#[test]
fn full_table_keeps_other_keys_in_order() {
    let input = "[dependencies.tauri]\n\
version = \"1.0.0\"\n\
features = [\"old\"]\n\
default-features = false   # pinned\n\
build = \"b.rs\"\n";
    let cfg = config(vec!["api"], false, false, false);
    let out = rewrite_manifest(input, &cfg).unwrap().new_text.unwrap();
    // untouched keys keep their bytes, comments included
    assert!(out.contains("version = \"1.0.0\"\n"));
    assert!(out.contains("default-features = false   # pinned\n"));
    assert!(out.contains("build = \"b.rs\"\n"));
    // and their relative order
    let reparsed: toml_edit::DocumentMut = out.parse().unwrap();
    let keys: Vec<String> = reparsed["dependencies"]["tauri"]
        .as_table()
        .unwrap()
        .iter()
        .map(|(k, _)| k.to_string())
        .collect();
    assert_eq!(keys, vec!["version", "features", "default-features", "build"]);
}

#[test]
fn rewrite_is_idempotent_byte_for_byte() {
    let input = "[dependencies]\ntauri = { version = \"1.0\", features = [\"menu\"] }\n";
    let cfg = config(vec!["api"], false, true, false);
    let first = rewrite_manifest(input, &cfg).unwrap().new_text.unwrap();
    let second = rewrite_manifest(&first, &cfg).unwrap().new_text.unwrap();
    assert_eq!(first, second);
}

#[test]
fn full_table_rewrite_is_idempotent() {
    let input =
        "[dependencies.tauri]\nversion = \"1.0.0\"\nfeatures = [\"menu\", \"old\", \"menu\"]\n";
    let cfg = config(vec!["api"], true, true, true);
    let first = rewrite_manifest(input, &cfg).unwrap();
    let text1 = first.new_text.unwrap();
    // both occurrences of the marker are kept, at the end
    assert_eq!(
        first.manifest.features,
        vec!["api", "cli", "updater", "system-tray", "menu", "menu"]
    );
    let second = rewrite_manifest(&text1, &cfg).unwrap();
    assert_eq!(second.manifest.features, first.manifest.features);
    assert_eq!(second.new_text.unwrap(), text1);
}

#[test]
fn inline_table_marker_carried() {
    let input = "[dependencies]\ntauri = { version = \"0.9\", features = [\"menu\"] }\n";
    let cfg = config(vec![], false, false, true);
    let rw = rewrite_manifest(input, &cfg).unwrap();
    assert_eq!(rw.manifest.features, vec!["system-tray", "menu"]);
    let out = rw.new_text.unwrap();
    assert_eq!(parsed_features(&out), vec!["system-tray", "menu"]);
    let reparsed: toml_edit::DocumentMut = out.parse().unwrap();
    assert_eq!(
        reparsed["dependencies"]["tauri"]["version"].as_str(),
        Some("0.9")
    );
}

#[test]
fn inline_table_without_features_gets_them() {
    let input = "[dependencies]\ntauri = { version = \"0.9\" }\n";
    let cfg = config(vec!["api"], false, false, false);
    let rw = rewrite_manifest(input, &cfg).unwrap();
    assert_eq!(rw.manifest.features, vec!["api"]);
    assert_eq!(parsed_features(&rw.new_text.unwrap()), vec!["api"]);
}

#[test]
fn bare_version_is_migrated_to_inline_table() {
    let input = "[dependencies]\ntauri = \"1.0\"\n";
    let cfg = config(vec!["api"], true, false, false);
    let rw = rewrite_manifest(input, &cfg).unwrap();
    // a bare string can carry no marker
    assert_eq!(rw.manifest.features, vec!["api", "cli"]);
    let out = rw.new_text.unwrap();
    let reparsed: toml_edit::DocumentMut = out.parse().unwrap();
    let entry = reparsed["dependencies"]["tauri"].as_value().unwrap();
    assert!(entry.as_inline_table().is_some());
    assert_eq!(
        reparsed["dependencies"]["tauri"]["version"].as_str(),
        Some("1.0")
    );
    assert_eq!(parsed_features(&out), vec!["api", "cli"]);
}

#[test]
fn bare_version_with_spaces_is_stripped() {
    let input = "[dependencies]\ntauri =   \" 1.0.2 \"\n";
    let cfg = config(vec![], false, false, false);
    let rw = rewrite_manifest(input, &cfg).unwrap();
    let out = rw.new_text.unwrap();
    let reparsed: toml_edit::DocumentMut = out.parse().unwrap();
    assert_eq!(
        reparsed["dependencies"]["tauri"]["version"].as_str(),
        Some("1.0.2")
    );
}

#[test]
fn bare_version_migration_exact_text() {
    let input = "[dependencies]\ntauri = \"1.0\"\n";
    let cfg = config(vec!["api", "cli"], false, false, false);
    let out = rewrite_manifest(input, &cfg).unwrap().new_text.unwrap();
    assert_eq!(
        out,
        "[dependencies]\ntauri = { version = \"1.0\", features = [\"api\", \"cli\"] }\n"
    );
}

#[test]
fn allowlisted_marker_is_not_deduplicated() {
    // the marker scan carries every occurrence; an allowlist that itself holds
    // the marker therefore accumulates copies run over run
    let input = "[dependencies]\ntauri = { version = \"1\", features = [\"menu\"] }\n";
    let cfg = config(vec!["menu"], false, false, false);
    let first = rewrite_manifest(input, &cfg).unwrap();
    assert_eq!(first.manifest.features, vec!["menu", "menu"]);
    let second = rewrite_manifest(&first.new_text.unwrap(), &cfg).unwrap();
    assert_eq!(second.manifest.features, vec!["menu", "menu", "menu"]);
}

#[test]
fn full_table_non_array_features_value_is_replaced() {
    let input = "[dependencies.tauri]\nversion = \"1\"\nfeatures = \"oops\"\n";
    let cfg = config(vec!["api"], false, false, false);
    let rw = rewrite_manifest(input, &cfg).unwrap();
    assert_eq!(rw.manifest.features, vec!["api"]);
    assert_eq!(parsed_features(&rw.new_text.unwrap()), vec!["api"]);
}

#[test]
fn non_string_array_elements_carry_nothing() {
    let input = "[dependencies]\ntauri = { features = [1, \"menu\", true] }\n";
    let cfg = config(vec!["api"], false, false, false);
    let rw = rewrite_manifest(input, &cfg).unwrap();
    assert_eq!(rw.manifest.features, vec!["api", "menu"]);
}

#[test]
fn array_of_tables_entry_is_unsupported() {
    let input = "[[dependencies.tauri]]\nversion = \"1.0\"\n";
    let cfg = config(vec![], false, false, false);
    assert_eq!(rewrite_manifest(input, &cfg).unwrap_err(), Error::UnsupportedFormat);
}

#[test]
fn integer_entry_is_unsupported() {
    let input = "[dependencies]\ntauri = 5\n";
    let cfg = config(vec![], false, false, false);
    assert_eq!(rewrite_manifest(input, &cfg).unwrap_err(), Error::UnsupportedFormat);
}

#[test]
fn absent_entry_is_unsupported() {
    let input = "[dependencies]\nserde = \"1\"\n";
    let cfg = config(vec![], false, false, false);
    assert_eq!(rewrite_manifest(input, &cfg).unwrap_err(), Error::UnsupportedFormat);
}

#[test]
fn missing_dependency_table_returns_features_without_text() {
    let input = "[package]\nname = \"app\"\n";
    let cfg = config(vec!["api"], false, true, false);
    let rw = rewrite_manifest(input, &cfg).unwrap();
    assert_eq!(rw.manifest.features, vec!["api", "updater"]);
    assert!(rw.new_text.is_none());
}

#[test]
fn malformed_manifest_is_a_parse_error() {
    let input = "[dependencies\ntauri = \"1.0\"\n";
    let cfg = config(vec![], false, false, false);
    assert_eq!(rewrite_manifest(input, &cfg).unwrap_err(), Error::Parse);
}
