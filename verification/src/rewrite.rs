//! Dependency Entry Resolver and Workspace Member Reader: merges the computed
//! feature set into the manifest's `tauri` dependency entry, whatever shape
//! that entry has on disk, and reads the workspace member paths.

use vstd::prelude::*;

use crate::doc::{
    dep_features_of, dep_features_of_text, dep_other_pairs_of, dep_other_pairs_of_text,
    dep_shape_of, dep_shape_of_text, dep_version_key_of, dep_version_of_text, doc_render,
    parse_document, promote_entry_to_inline, read_bare_version, read_entry_features,
    read_entry_shape, read_workspace_members, render_document, toml_ok,
    workspace_members_of_text, write_entry_features, EntryShape,
};
use crate::features::{
    build_feature_set, feature_set_spec, merge_marker, merged_spec, ConfigOptions,
};
use crate::textfix::{
    lemma_pass_idempotent, normalize_rendered, pass_spec, strip_quotes_and_spaces, stripped_spec,
};

verus! {

/// The failures a manifest operation can surface. File I/O failures stay with
/// the caller doing the I/O.
#[derive(Clone, Copy, Debug, PartialEq, Eq, Structural)]
pub enum Error {
    /// The manifest text is not well-formed TOML.
    Parse,
    /// The dependency entry has none of the three supported shapes.
    UnsupportedFormat,
    /// A `workspace` table is present but its `members` key is missing, not
    /// an array, or holds a non-string element: a schema invariant violation.
    WorkspaceSchema,
}

/// The feature list carried out of a manifest rewrite.
#[derive(Debug)]
pub struct Manifest {
    pub features: Vec<String>,
}

/// The outcome of a rewrite: the merged feature list and, unless the
/// dependency table could not be found at all, the new manifest text the
/// caller must write back. When `new_text` is `None` the caller must leave
/// the file untouched.
#[derive(Debug)]
pub struct Rewrite {
    pub manifest: Manifest,
    pub new_text: Option<String>,
}

/// Rewrites the `tauri` dependency entry of the given manifest text so that
/// its feature array holds exactly the configuration-derived feature set plus
/// one marker feature per marker occurrence already present, migrating a bare
/// version string to an inline table on the way; any other entry shape is
/// unsupported, and a manifest without a dependency table is left alone. The
/// returned text, when there is one, is the Formatting Normalizer's image of
/// the rendering of a document whose entry holds exactly the returned feature
/// set, keeps the input's sibling key/value pairs, and whose rendering parses
/// back to the same content; it is already normalized, so running the
/// normalizer over it again would change nothing.
pub fn rewrite_manifest(manifest_text: &str, config: &ConfigOptions) -> (r: Result<Rewrite, Error>)
    ensures
        r == Err::<Rewrite, Error>(Error::Parse) <==> !toml_ok(manifest_text@),
        toml_ok(manifest_text@) ==> (r == Err::<Rewrite, Error>(Error::UnsupportedFormat)
            <==> dep_shape_of_text(manifest_text@) == EntryShape::Unsupported),
        toml_ok(manifest_text@) && dep_shape_of_text(manifest_text@)
            == EntryShape::NoDependencyTable ==> (r matches Ok(rw) && rw.new_text is None
            && rw.manifest.features.deep_view() == feature_set_spec(*config)),
        toml_ok(manifest_text@) && (dep_shape_of_text(manifest_text@) == EntryShape::FullTable
            || dep_shape_of_text(manifest_text@) == EntryShape::InlineTable) ==> (r matches Ok(rw)
            && rw.manifest.features.deep_view() == merged_spec(
            feature_set_spec(*config),
            dep_features_of_text(manifest_text@),
        ) && (rw.new_text matches Some(t) && exists|d: toml_edit::DocumentMut|
            (#[trigger] dep_shape_of(d)) == dep_shape_of_text(manifest_text@)
                && dep_features_of(d) == rw.manifest.features.deep_view().map_values(
                |f: Seq<char>| Some(f),
            ) && dep_other_pairs_of(d) == dep_other_pairs_of_text(manifest_text@) && toml_ok(
                doc_render(d),
            ) && dep_shape_of_text(doc_render(d)) == dep_shape_of(d) && dep_features_of_text(
                doc_render(d),
            ) == dep_features_of(d) && dep_other_pairs_of_text(doc_render(d))
                == dep_other_pairs_of(d) && t@ == pass_spec(doc_render(d)))),
        toml_ok(manifest_text@) && dep_shape_of_text(manifest_text@)
            == EntryShape::BareVersionString ==> (r matches Ok(rw)
            && rw.manifest.features.deep_view() == feature_set_spec(*config) && (
        dep_version_of_text(manifest_text@) matches Some(v) && rw.new_text matches Some(t)
            && exists|d: toml_edit::DocumentMut|
            (#[trigger] dep_shape_of(d)) == EntryShape::InlineTable && dep_features_of(d)
                == feature_set_spec(*config).map_values(|f: Seq<char>| Some(f))
                && dep_version_key_of(d) == Some(stripped_spec(v)) && dep_other_pairs_of(d).len()
                == 1 && toml_ok(doc_render(d)) && dep_shape_of_text(doc_render(d))
                == dep_shape_of(d) && dep_features_of_text(doc_render(d)) == dep_features_of(d)
                && t@ == pass_spec(doc_render(d)))),
        r matches Ok(rw) ==> (rw.new_text matches Some(t) ==> pass_spec(t@) == t@),
{
    let mut doc = match parse_document(manifest_text) {
        Some(d) => d,
        None => {
            return Err(Error::Parse);
        },
    };
    let base = build_feature_set(config);
    let shape = read_entry_shape(&doc);
    match shape {
        EntryShape::NoDependencyTable => {
            Ok(Rewrite { manifest: Manifest { features: base }, new_text: None })
        },
        EntryShape::Unsupported => Err(Error::UnsupportedFormat),
        EntryShape::FullTable | EntryShape::InlineTable => {
            let existing = read_entry_features(&doc);
            let merged = merge_marker(base, &existing);
            write_entry_features(&mut doc, &merged);
            let rendered = render_document(&doc);
            let out = normalize_rendered(rendered.as_str());
            proof {
                lemma_pass_idempotent(rendered@);
                assert(merged.deep_view() == merged_spec(
                    feature_set_spec(*config),
                    dep_features_of_text(manifest_text@),
                ));
                assert(dep_shape_of(doc) == dep_shape_of_text(manifest_text@));
                assert(dep_features_of(doc) == merged.deep_view().map_values(
                    |f: Seq<char>| Some(f),
                ));
                assert(dep_other_pairs_of(doc) == dep_other_pairs_of_text(manifest_text@));
                assert(toml_ok(doc_render(doc)) && rendered@ == doc_render(doc));
                assert(out@ == pass_spec(doc_render(doc)));
            }
            Ok(Rewrite { manifest: Manifest { features: merged }, new_text: Some(out) })
        },
        EntryShape::BareVersionString => {
            match read_bare_version(&doc) {
                None => Err(Error::UnsupportedFormat),
                Some(raw) => {
                    let version = strip_quotes_and_spaces(raw.as_str());
                    promote_entry_to_inline(&mut doc, version.as_str(), &base);
                    let rendered = render_document(&doc);
                    let out = normalize_rendered(rendered.as_str());
                    proof {
                        lemma_pass_idempotent(rendered@);
                        assert(dep_version_of_text(manifest_text@) == Some(raw@));
                        assert(version@ == stripped_spec(raw@));
                        assert(dep_shape_of(doc) == EntryShape::InlineTable);
                        assert(dep_features_of(doc) == feature_set_spec(*config).map_values(
                            |f: Seq<char>| Some(f),
                        ));
                        assert(dep_version_key_of(doc) == Some(stripped_spec(raw@)));
                        assert(dep_other_pairs_of(doc).len() == 1);
                        assert(toml_ok(doc_render(doc)) && rendered@ == doc_render(doc));
                        assert(out@ == pass_spec(doc_render(doc)));
                    }
                    Ok(Rewrite { manifest: Manifest { features: base }, new_text: Some(out) })
                },
            }
        },
    }
}

/// Every member entry is a string.
pub open spec fn all_strings(items: Seq<Option<Seq<char>>>) -> bool {
    forall|i: int| 0 <= i < items.len() ==> (#[trigger] items[i]) is Some
}

/// The member strings, in document order.
pub open spec fn unwrap_strings(items: Seq<Option<Seq<char>>>) -> Seq<Seq<char>> {
    items.map_values(
        |o: Option<Seq<char>>|
            match o {
                Option::Some(f) => f,
                Option::None => Seq::<char>::empty(),
            },
    )
}

/// What reading the members from a workspace view must yield: no workspace
/// table means no members; a workspace table whose members are missing, not
/// an array, or not all strings violates the schema invariant.
pub open spec fn members_result_spec(view: Option<Option<Seq<Option<Seq<char>>>>>) -> Result<
    Seq<Seq<char>>,
    Error,
> {
    match view {
        Option::None => Result::Ok(Seq::<Seq<char>>::empty()),
        Option::Some(Option::None) => Result::Err(Error::WorkspaceSchema),
        Option::Some(Option::Some(items)) => if all_strings(items) {
            Result::Ok(unwrap_strings(items))
        } else {
            Result::Err(Error::WorkspaceSchema)
        },
    }
}

/// Turns the workspace view read from the document into the member list,
/// exactly as `members_result_spec` prescribes.
pub fn members_from_view(view: Option<Option<Vec<Option<String>>>>) -> (r: Result<
    Vec<String>,
    Error,
>)
    ensures
        members_result_spec(view.deep_view()) == (match r {
            Ok(v) => Result::<Seq<Seq<char>>, Error>::Ok(v.deep_view()),
            Err(e) => Result::<Seq<Seq<char>>, Error>::Err(e),
        }),
        r matches Err(e) ==> e == Error::WorkspaceSchema,
{
    match view {
        None => {
            let empty: Vec<String> = Vec::new();
            proof {
                assert(empty.deep_view() =~= Seq::<Seq<char>>::empty());
            }
            Ok(empty)
        },
        Some(None) => Err(Error::WorkspaceSchema),
        Some(Some(items)) => {
            let ghost items_dv = items.deep_view();
            let mut out: Vec<String> = Vec::new();
            let mut i: usize = 0;
            while i < items.len()
                invariant
                    i <= items@.len(),
                    view == Some(Some(items)),
                    items_dv == items.deep_view(),
                    forall|t: int| 0 <= t < i ==> (#[trigger] items_dv[t]) is Some,
                    out.deep_view() =~= unwrap_strings(items_dv.take(i as int)),
                decreases items@.len() - i,
            {
                match &items[i] {
                    Some(s) => {
                        let ghost pre = out.deep_view();
                        out.push(s.clone());
                        proof {
                            assert(items_dv[i as int] == Some(s@));
                            assert(out.deep_view() =~= pre.push(s@));
                            assert(out.deep_view() =~= unwrap_strings(
                                items_dv.take(i as int + 1),
                            ));
                        }
                    },
                    None => {
                        proof {
                            assert(items_dv[i as int] is None);
                            assert(!all_strings(items_dv));
                        }
                        return Err(Error::WorkspaceSchema);
                    },
                }
                i = i + 1;
            }
            proof {
                assert(items_dv.take(i as int) =~= items_dv);
                assert(all_strings(items_dv));
                assert(out.deep_view() =~= unwrap_strings(items_dv));
            }
            Ok(out)
        },
    }
}

/// Reads the ordered workspace member paths from the manifest text: an empty
/// list when there is no `workspace` table, the `members` strings in document
/// order otherwise, exactly as `members_result_spec` prescribes for the
/// text's workspace view.
pub fn get_workspace_members(manifest_text: &str) -> (r: Result<Vec<String>, Error>)
    ensures
        r == Err::<Vec<String>, Error>(Error::Parse) <==> !toml_ok(manifest_text@),
        toml_ok(manifest_text@) ==> members_result_spec(workspace_members_of_text(manifest_text@))
            == (match r {
            Ok(v) => Result::<Seq<Seq<char>>, Error>::Ok(v.deep_view()),
            Err(e) => Result::<Seq<Seq<char>>, Error>::Err(e),
        }),
        r matches Err(e) ==> e == Error::Parse || e == Error::WorkspaceSchema,
{
    let doc = match parse_document(manifest_text) {
        Some(d) => d,
        None => {
            return Err(Error::Parse);
        },
    };
    let view = read_workspace_members(&doc);
    members_from_view(view)
}

} // verus!


