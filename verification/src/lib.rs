//! Synchronizes a declarative feature configuration into the feature list of
//! one fixed dependency entry of a build manifest, preserving the rest of the
//! manifest byte for byte, and reads workspace member paths from the same
//! document.

pub mod doc;
pub mod features;
pub mod rewrite;
pub mod textfix;

pub use crate::features::{build_feature_set, ConfigOptions};
pub use crate::rewrite::{
    get_workspace_members, members_from_view, rewrite_manifest, Error, Manifest, Rewrite,
};
