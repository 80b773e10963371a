use manifest_sync::textfix::normalize_rendered;

#[test]
fn normalizer_fixes_spacing_artifacts() {
    let messy = "x ={ a =[1]}";
    assert_eq!(normalize_rendered(messy), "x = { a = [1] }");
}

#[test]
fn normalizer_fixes_comma_before_features() {
    let messy = "tauri = { version = \"1.0\" ,features =[\"api\"]}";
    assert_eq!(
        normalize_rendered(messy),
        "tauri = { version = \"1.0\", features = [\"api\"] }"
    );
}

#[test]
fn normalizer_is_idempotent() {
    let messy = "a ={ b =[\"x\"]}\nc = \"1.0\" ,features =[\"y\"]}";
    let once = normalize_rendered(messy);
    let twice = normalize_rendered(&once);
    assert_eq!(once, twice);
}

#[test]
fn normalizer_leaves_clean_text_alone() {
    let clean = "tauri = { version = \"1.0\", features = [\"api\"] }\n";
    assert_eq!(normalize_rendered(clean), clean);
}
