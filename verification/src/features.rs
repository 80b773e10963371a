//! Feature Set Builder: derives the ordered list of feature names from the
//! configuration options, and merges in the single marker feature that may
//! already be present in the manifest.

use vstd::prelude::*;
use vstd::string::StringExecFns;

verus! {

/// The configuration options the feature list is derived from: the already
/// computed allowlist of capability feature names, and the presence/activity
/// flags of the three optional sub-systems.
pub struct ConfigOptions {
    pub allowlist_features: Vec<String>,
    pub has_cli: bool,
    pub updater_active: bool,
    pub has_system_tray: bool,
}

/// The one feature name that, when found in the manifest's existing feature
/// array, is carried over to the end of the computed feature set.
pub open spec fn menu_marker() -> Seq<char> {
    "menu"@
}

/// The feature set derived from the configuration: the allowlist, then the
/// three conditional features in this fixed order.
pub open spec fn feature_set_spec(c: ConfigOptions) -> Seq<Seq<char>> {
    c.allowlist_features.deep_view()
        + (if c.has_cli { seq!["cli"@] } else { Seq::<Seq<char>>::empty() })
        + (if c.updater_active { seq!["updater"@] } else { Seq::<Seq<char>>::empty() })
        + (if c.has_system_tray { seq!["system-tray"@] } else { Seq::<Seq<char>>::empty() })
}

/// How many entries of the manifest's existing feature array are the string
/// marker feature (non-string entries count for nothing).
pub open spec fn marker_count(existing: Seq<Option<Seq<char>>>) -> nat
    decreases existing.len(),
{
    if existing.len() == 0 {
        0
    } else {
        (if existing[0] == Some(menu_marker()) { 1nat } else { 0nat }) + marker_count(
            existing.skip(1),
        )
    }
}

/// `k` copies of the marker feature.
pub open spec fn menu_seq(k: nat) -> Seq<Seq<char>> {
    Seq::new(k, |i: int| menu_marker())
}

/// The merged feature set: the computed one, then one marker per marker
/// occurrence in the manifest's existing feature array.
pub open spec fn merged_spec(base: Seq<Seq<char>>, existing: Seq<Option<Seq<char>>>) -> Seq<
    Seq<char>,
> {
    base + menu_seq(marker_count(existing))
}

/// Derives the feature set from the configuration options, in the fixed
/// order: allowlist, then "cli", "updater", "system-tray" as configured.
pub fn build_feature_set(config: &ConfigOptions) -> (r: Vec<String>)
    ensures
        r.deep_view() == feature_set_spec(*config),
{
    let mut r: Vec<String> = Vec::new();
    let mut i: usize = 0;
    while i < config.allowlist_features.len()
        invariant
            i <= config.allowlist_features.len(),
            r.deep_view() =~= config.allowlist_features.deep_view().take(i as int),
        decreases config.allowlist_features.len() - i,
    {
        let ghost pre = r.deep_view();
        r.push(config.allowlist_features[i].clone());
        proof {
            assert(r.deep_view() =~= pre.push(config.allowlist_features@[i as int].deep_view()));
            assert(r.deep_view() =~= config.allowlist_features.deep_view().take(i as int + 1));
        }
        i = i + 1;
    }
    assert(r.deep_view() =~= config.allowlist_features.deep_view());
    if config.has_cli {
        r.push(String::from_str("cli"));
    }
    if config.updater_active {
        r.push(String::from_str("updater"));
    }
    if config.has_system_tray {
        r.push(String::from_str("system-tray"));
    }
    assert(r.deep_view() =~= feature_set_spec(*config));
    r
}

proof fn lemma_marker_count_step(s: Seq<Option<Seq<char>>>, i: int)
    requires
        0 <= i < s.len(),
    ensures
        marker_count(s.skip(i)) == (if s[i] == Some(menu_marker()) { 1nat } else { 0nat })
            + marker_count(s.skip(i + 1)),
{
    assert(s.skip(i).len() > 0);
    assert(s.skip(i)[0] == s[i]);
    assert(s.skip(i).skip(1) =~= s.skip(i + 1));
}

/// Appends one copy of the marker feature per occurrence of it among the
/// string entries of the manifest's existing feature array.
pub fn merge_marker(base: Vec<String>, existing: &Vec<Option<String>>) -> (r: Vec<String>)
    ensures
        r.deep_view() == merged_spec(base.deep_view(), existing.deep_view()),
{
    let ghost base_dv = base.deep_view();
    let ghost ex_dv = existing.deep_view();
    let menu = String::from_str("menu");
    let mut r = base;
    let ghost mut k: nat = 0;
    let mut i: usize = 0;
    proof {
        assert(ex_dv.skip(0) =~= ex_dv);
        assert(r.deep_view() =~= base_dv + menu_seq(0));
    }
    while i < existing.len()
        invariant
            i <= existing.len(),
            menu@ == menu_marker(),
            ex_dv == existing.deep_view(),
            r.deep_view() == base_dv + menu_seq(k),
            k + marker_count(ex_dv.skip(i as int)) == marker_count(ex_dv),
        decreases existing.len() - i,
    {
        proof {
            lemma_marker_count_step(ex_dv, i as int);
        }
        match &existing[i] {
            Some(s) => {
                if *s == menu {
                    let ghost pre = r.deep_view();
                    r.push(menu.clone());
                    proof {
                        assert(ex_dv[i as int] == Some(menu_marker()));
                        assert(r.deep_view() =~= pre.push(menu_marker()));
                        assert(r.deep_view() =~= base_dv + menu_seq(k + 1));
                        k = k + 1;
                    }
                } else {
                    proof {
                        assert(ex_dv[i as int] matches Some(f) && f != menu_marker());
                    }
                }
            },
            None => {
                proof {
                    assert(ex_dv[i as int] is None);
                }
            },
        }
        i = i + 1;
    }
    proof {
        assert(ex_dv.skip(i as int) =~= Seq::<Option<Seq<char>>>::empty());
        assert(marker_count(ex_dv.skip(i as int)) == 0);
        assert(r.deep_view() == merged_spec(base_dv, ex_dv));
    }
    r
}

/// Law: whenever the existing feature array holds the marker as a string
/// entry, the merged feature set ends with the marker as its last element,
/// after every configuration-derived feature.
pub proof fn lemma_marker_last(base: Seq<Seq<char>>, existing: Seq<Option<Seq<char>>>)
    requires
        existing.contains(Some(menu_marker())),
    ensures
        merged_spec(base, existing).len() > base.len(),
        merged_spec(base, existing).last() == menu_marker(),
        merged_spec(base, existing).take(base.len() as int) == base,
{
    lemma_contains_menu_count(existing);
    let k = marker_count(existing);
    assert(merged_spec(base, existing).last() == menu_seq(k)[k - 1]);
    assert(merged_spec(base, existing).take(base.len() as int) =~= base);
}

/// Law: an existing feature array without the marker contributes nothing: the
/// merged feature set is exactly the configuration-derived one.
pub proof fn lemma_no_marker(base: Seq<Seq<char>>, existing: Seq<Option<Seq<char>>>)
    requires
        marker_count(existing) == 0,
    ensures
        merged_spec(base, existing) == base,
{
    assert(merged_spec(base, existing) =~= base);
}

/// An occurrence of the marker among the array's string entries makes the
/// marker count positive.
proof fn lemma_contains_menu_count(existing: Seq<Option<Seq<char>>>)
    requires
        existing.contains(Some(menu_marker())),
    ensures
        marker_count(existing) > 0,
    decreases existing.len(),
{
    let i = choose|i: int| 0 <= i < existing.len() && existing[i] == Some(menu_marker());
    if i == 0 {
        assert(marker_count(existing) >= 1);
    } else {
        assert(existing.skip(1)[i - 1] == Some(menu_marker()));
        assert(existing.skip(1).contains(Some(menu_marker())));
        lemma_contains_menu_count(existing.skip(1));
    }
}

/// A feature list read back as the existing entries of a feature array: every
/// entry is a string.
pub open spec fn as_existing(features: Seq<Seq<char>>) -> Seq<Option<Seq<char>>> {
    features.map_values(|f: Seq<char>| Some(f))
}

proof fn lemma_marker_count_add(a: Seq<Option<Seq<char>>>, b: Seq<Option<Seq<char>>>)
    ensures
        marker_count(a + b) == marker_count(a) + marker_count(b),
    decreases a.len(),
{
    if a.len() == 0 {
        assert(a + b =~= b);
    } else {
        assert((a + b)[0] == a[0]);
        assert((a + b).skip(1) =~= a.skip(1) + b);
        lemma_marker_count_add(a.skip(1), b);
        assert((a + b).len() > 0);
    }
}

proof fn lemma_marker_count_no_menu(base: Seq<Seq<char>>)
    requires
        !base.contains(menu_marker()),
    ensures
        marker_count(as_existing(base)) == 0,
    decreases base.len(),
{
    if base.len() == 0 {
        assert(as_existing(base).len() == 0);
    } else {
        assert(as_existing(base)[0] == Some(base[0]));
        assert(base[0] != menu_marker());
        assert(as_existing(base).skip(1) =~= as_existing(base.skip(1)));
        assert(!base.skip(1).contains(menu_marker())) by {
            if base.skip(1).contains(menu_marker()) {
                let i = choose|i: int|
                    0 <= i < base.skip(1).len() && base.skip(1)[i] == menu_marker();
                assert(base[i + 1] == menu_marker());
                assert(base.contains(menu_marker()));
            }
        }
        lemma_marker_count_no_menu(base.skip(1));
        assert(as_existing(base).len() > 0);
    }
}

proof fn lemma_marker_count_menu_seq(k: nat)
    ensures
        marker_count(as_existing(menu_seq(k))) == k,
    decreases k,
{
    if k == 0 {
        assert(as_existing(menu_seq(0)).len() == 0);
    } else {
        assert(as_existing(menu_seq(k))[0] == Some(menu_marker()));
        assert(as_existing(menu_seq(k)).skip(1) =~= as_existing(menu_seq((k - 1) as nat)));
        lemma_marker_count_menu_seq((k - 1) as nat);
        assert(as_existing(menu_seq(k)).len() > 0);
    }
}

/// Law: merging is idempotent. Reading back the feature array written by one
/// merge and merging again, with an unchanged configuration-derived list that
/// does not itself hold the marker, yields the same feature set.
pub proof fn lemma_merge_idempotent(base: Seq<Seq<char>>, existing: Seq<Option<Seq<char>>>)
    requires
        !base.contains(menu_marker()),
    ensures
        merged_spec(base, as_existing(merged_spec(base, existing))) == merged_spec(base, existing),
{
    let k = marker_count(existing);
    assert(as_existing(base + menu_seq(k)) =~= as_existing(base) + as_existing(menu_seq(k)));
    lemma_marker_count_add(as_existing(base), as_existing(menu_seq(k)));
    lemma_marker_count_no_menu(base);
    lemma_marker_count_menu_seq(k);
}

} // verus!

