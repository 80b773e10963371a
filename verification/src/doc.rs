//! Document Model boundary: the format-preserving TOML document lives in
//! `toml_edit`, and everything the rewrite logic reads from it or writes into
//! it crosses this small set of trusted declarations.

use vstd::prelude::*;

verus! {

#[verifier::external_type_specification]
#[verifier::external_body]
pub struct ExDocumentMut(toml_edit::DocumentMut);

/// The on-disk shape of the fixed dependency entry, as found in the parsed
/// document.
#[derive(Clone, Copy, Debug, PartialEq, Eq, Structural)]
pub enum EntryShape {
    /// The manifest has no `dependencies` table at all.
    NoDependencyTable,
    /// The entry is itself a table (`[dependencies.tauri]`).
    FullTable,
    /// The entry is an inline table (`tauri = { ... }`).
    InlineTable,
    /// The entry is a bare version string (`tauri = "1.0"`).
    BareVersionString,
    /// The entry is absent, or of a shape the rewrite does not handle.
    Unsupported,
}

/// Whether this text parses as a TOML document.
pub uninterp spec fn toml_ok(text: Seq<char>) -> bool;

/// The text a document renders to.
pub uninterp spec fn doc_render(d: toml_edit::DocumentMut) -> Seq<char>;

/// The shape of the document's `dependencies.tauri` entry.
pub uninterp spec fn dep_shape_of(d: toml_edit::DocumentMut) -> EntryShape;

/// The items of the entry's `features` array: one entry per array element, a
/// string value or a marker that the element is not a string. Empty when the
/// entry has no `features` array.
pub uninterp spec fn dep_features_of(d: toml_edit::DocumentMut) -> Seq<Option<Seq<char>>>;

/// The rendering (quotes and surrounding whitespace included) of the entry's
/// scalar, when the entry is a bare version string.
pub uninterp spec fn dep_version_of(d: toml_edit::DocumentMut) -> Option<Seq<char>>;

/// The entry's key/value pairs other than `features`, in order, each value
/// with its full rendering. Empty when the entry is no table-like shape.
pub uninterp spec fn dep_other_pairs_of(d: toml_edit::DocumentMut) -> Seq<(Seq<char>, Seq<char>)>;

/// The string value of the entry's `version` key, when the entry is
/// table-like and that key holds a string.
pub uninterp spec fn dep_version_key_of(d: toml_edit::DocumentMut) -> Option<Seq<char>>;

/// The shape the `dependencies.tauri` entry has in this text once parsed:
/// parsing is deterministic, so the classification is a function of the text
/// alone.
pub uninterp spec fn dep_shape_of_text(text: Seq<char>) -> EntryShape;

/// The items of the entry's `features` array in this text once parsed, as
/// `dep_features_of` reads them.
pub uninterp spec fn dep_features_of_text(text: Seq<char>) -> Seq<Option<Seq<char>>>;

/// The entry's key/value pairs other than `features` in this text once
/// parsed, as `dep_other_pairs_of` reads them.
pub uninterp spec fn dep_other_pairs_of_text(text: Seq<char>) -> Seq<(Seq<char>, Seq<char>)>;

/// The rendering of the entry's bare version scalar in this text once
/// parsed, as `dep_version_of` reads it.
pub uninterp spec fn dep_version_of_text(text: Seq<char>) -> Option<Seq<char>>;

/// The workspace members of this text once parsed, as `workspace_members_of`
/// reads them.
pub uninterp spec fn workspace_members_of_text(text: Seq<char>) -> Option<
    Option<Seq<Option<Seq<char>>>>,
>;

/// The document's workspace members: nothing when there is no `workspace`
/// table; otherwise nothing when its `members` key is missing or not an
/// array; otherwise one entry per array element, a string value or a marker
/// that the element is not a string.
pub uninterp spec fn workspace_members_of(d: toml_edit::DocumentMut) -> Option<
    Option<Seq<Option<Seq<char>>>>,
>;

/// Relies on `toml_edit::DocumentMut::from_str` and on the crate's
/// format-preserving document model: parsing succeeds exactly on well-formed
/// TOML, and a freshly parsed, untouched document renders back to the input
/// text unchanged. Parsing is deterministic, so what the document holds — the
/// entry's shape, its feature items, the workspace members — is a function of
/// the text alone, which the last three clauses record.
#[verifier::external_body]
pub(crate) fn parse_document(text: &str) -> (r: Option<toml_edit::DocumentMut>)
    ensures
        r is Some <==> toml_ok(text@),
        r matches Some(d) ==> doc_render(d) == text@,
        r matches Some(d) ==> dep_shape_of(d) == dep_shape_of_text(text@),
        r matches Some(d) ==> dep_features_of(d) == dep_features_of_text(text@),
        r matches Some(d) ==> dep_other_pairs_of(d) == dep_other_pairs_of_text(text@),
        r matches Some(d) ==> dep_version_of(d) == dep_version_of_text(text@),
        r matches Some(d) ==> workspace_members_of(d) == workspace_members_of_text(text@),
{
    text.parse::<toml_edit::DocumentMut>().ok()
}

/// Relies on `Display for toml_edit::DocumentMut` and on the crate's
/// lossless round trip: a rendered document is well-formed TOML and parses
/// back to a document with the same entry shape, feature items and sibling
/// pairs, which the last four clauses record over the text-level names.
#[verifier::external_body]
pub(crate) fn render_document(d: &toml_edit::DocumentMut) -> (r: String)
    ensures
        r@ == doc_render(*d),
        toml_ok(r@),
        dep_shape_of_text(r@) == dep_shape_of(*d),
        dep_features_of_text(r@) == dep_features_of(*d),
        dep_other_pairs_of_text(r@) == dep_other_pairs_of(*d),
{
    d.to_string()
}

/// Relies on `toml_edit`'s `Table::get` and the `Item::as_*` accessors: the
/// classification of the `dependencies.tauri` entry, one arm per variant.
#[verifier::external_body]
pub(crate) fn read_entry_shape(d: &toml_edit::DocumentMut) -> (s: EntryShape)
    ensures
        s == dep_shape_of(*d),
{
    let deps = d.as_table().get("dependencies").and_then(toml_edit::Item::as_table);
    let deps = match deps {
        Some(t) => t,
        None => return EntryShape::NoDependencyTable,
    };
    match deps.get("tauri") {
        Some(toml_edit::Item::Table(_)) => EntryShape::FullTable,
        Some(toml_edit::Item::Value(toml_edit::Value::InlineTable(_))) => EntryShape::InlineTable,
        Some(toml_edit::Item::Value(toml_edit::Value::String(_))) => EntryShape::BareVersionString,
        _ => EntryShape::Unsupported,
    }
}

/// Relies on `toml_edit`'s `TableLike::get`, `Item::as_array` and
/// `Value::as_str`: the elements of the entry's `features` array, each mapped
/// to its string value or to `None` where it is not a string.
#[verifier::external_body]
pub(crate) fn read_entry_features(d: &toml_edit::DocumentMut) -> (r: Vec<Option<String>>)
    ensures
        r.deep_view() == dep_features_of(*d),
{
    let arr = d
        .as_table()
        .get("dependencies")
        .and_then(toml_edit::Item::as_table)
        .and_then(|t| t.get("tauri"))
        .and_then(toml_edit::Item::as_table_like)
        .and_then(|t| t.get("features"))
        .and_then(toml_edit::Item::as_array);
    match arr {
        Some(a) => a.iter().map(|v| v.as_str().map(String::from)).collect(),
        None => Vec::new(),
    }
}

/// Relies on `Display for toml_edit::Value`: the rendering, quotes and
/// surrounding whitespace included, of the entry's bare version scalar. The
/// accessor chain matched here is the one `read_entry_shape` classifies, so a
/// string scalar comes back exactly when the shape is the bare version
/// string.
#[verifier::external_body]
pub(crate) fn read_bare_version(d: &toml_edit::DocumentMut) -> (r: Option<String>)
    ensures
        r.deep_view() == dep_version_of(*d),
        r is Some <==> dep_shape_of(*d) == EntryShape::BareVersionString,
{
    let v = d
        .as_table()
        .get("dependencies")
        .and_then(toml_edit::Item::as_table)
        .and_then(|t| t.get("tauri"))
        .and_then(toml_edit::Item::as_value);
    match v {
        Some(toml_edit::Value::String(s)) => Some(s.to_string()),
        _ => None,
    }
}

/// Relies on `toml_edit`'s `TableLike::insert`: replacing (or appending, when
/// absent) the entry's `features` key with an array of exactly these strings
/// touches nothing else, so the entry keeps its shape, every other key keeps
/// its content and relative order, and the array reads back as written.
#[verifier::external_body]
pub(crate) fn write_entry_features(d: &mut toml_edit::DocumentMut, features: &Vec<String>)
    requires
        dep_shape_of(*old(d)) == EntryShape::FullTable || dep_shape_of(*old(d))
            == EntryShape::InlineTable,
    ensures
        dep_shape_of(*final(d)) == dep_shape_of(*old(d)),
        dep_other_pairs_of(*final(d)) == dep_other_pairs_of(*old(d)),
        dep_features_of(*final(d)) == features.deep_view().map_values(
            |f: Seq<char>| Some(f),
        ),
{
    let arr: toml_edit::Array = features.iter().map(String::as_str).collect();
    let entry = d
        .as_table_mut()
        .get_mut("dependencies")
        .and_then(toml_edit::Item::as_table_mut)
        .and_then(|t| t.get_mut("tauri"))
        .and_then(toml_edit::Item::as_table_like_mut);
    if let Some(t) = entry {
        t.insert("features", toml_edit::Item::Value(toml_edit::Value::Array(arr)));
    }
}

/// Relies on `toml_edit`'s value assignment and `InlineTable::insert`: the
/// bare version scalar is replaced wholesale by an inline table holding
/// exactly two keys, a `version` key with the given string and a `features`
/// key with an array of exactly these strings.
#[verifier::external_body]
pub(crate) fn promote_entry_to_inline(
    d: &mut toml_edit::DocumentMut,
    version: &str,
    features: &Vec<String>,
)
    requires
        dep_shape_of(*old(d)) == EntryShape::BareVersionString,
    ensures
        dep_shape_of(*final(d)) == EntryShape::InlineTable,
        dep_version_key_of(*final(d)) == Some(version@),
        dep_other_pairs_of(*final(d)).len() == 1,
        dep_features_of(*final(d)) == features.deep_view().map_values(
            |f: Seq<char>| Some(f),
        ),
{
    let arr: toml_edit::Array = features.iter().map(String::as_str).collect();
    let mut tbl = toml_edit::InlineTable::new();
    tbl.insert("version", toml_edit::Value::from(version));
    tbl.insert("features", toml_edit::Value::Array(arr));
    let entry = d
        .as_table_mut()
        .get_mut("dependencies")
        .and_then(toml_edit::Item::as_table_mut)
        .and_then(|t| t.get_mut("tauri"))
        .and_then(toml_edit::Item::as_value_mut);
    if let Some(v) = entry {
        *v = toml_edit::Value::InlineTable(tbl);
    }
}

/// Relies on `toml_edit`'s `Table::get`, `Item::as_table`, `Item::as_array`
/// and `Value::as_str`: the workspace members, classified as the
/// `workspace_members_of` model describes.
#[verifier::external_body]
pub(crate) fn read_workspace_members(d: &toml_edit::DocumentMut) -> (r: Option<
    Option<Vec<Option<String>>>,
>)
    ensures
        r.deep_view() == workspace_members_of(*d),
{
    match d.as_table().get("workspace").and_then(toml_edit::Item::as_table) {
        None => None,
        Some(ws) => Some(
            ws.get("members").and_then(toml_edit::Item::as_array).map(
                |a| a.iter().map(|v| v.as_str().map(String::from)).collect(),
            ),
        ),
    }
}

} // verus!
