//! What the server reads of an upload's manifest JSON: the declared name and
//! digest of each listed file.
use crate::text::opt_view;
use vstd::prelude::*;

verus! {

/// One entry of the manifest's `files` array: its `name` and `sha256`
/// members, where they are strings.
pub struct ManifestFileRef {
    pub name: Option<String>,
    pub sha256: Option<String>,
}

/// A manifest entry by its texts.
pub open spec fn ref_view(r: ManifestFileRef) -> (Option<Seq<char>>, Option<Seq<char>>) {
    (opt_view(r.name), opt_view(r.sha256))
}

/// The listed entries by their texts.
pub open spec fn refs_view(r: Option<Vec<ManifestFileRef>>) -> Option<Seq<(Option<Seq<char>>, Option<Seq<char>>)>> {
    match r {
        Some(v) => Some(v@.map_values(|x: ManifestFileRef| ref_view(x))),
        None => None,
    }
}

/// A manifest reading by its texts.
pub open spec fn manifest_view(r: Result<Option<Vec<ManifestFileRef>>, String>) -> Result<Option<Seq<(Option<Seq<char>>, Option<Seq<char>>)>>, Seq<char>> {
    match r {
        Ok(Some(v)) => Ok(Some(v@.map_values(|x: ManifestFileRef| ref_view(x)))),
        Ok(None) => Ok(None),
        Err(e) => Err(e@),
    }
}

/// What `serde_json::from_str` reads of a manifest text: the entries of its
/// `files` array (`None` where it has none that is an array), or the
/// error's text.
pub uninterp spec fn spec_manifest_files(json: Seq<char>) -> Result<Option<Seq<(Option<Seq<char>>, Option<Seq<char>>)>>, Seq<char>>;

/// Parses a manifest and reads its `files` array.
///
/// Calls `serde_json::from_str` into a `serde_json::Value`, then reads
/// `["files"]` with `as_array` and each entry's `["name"]` and `["sha256"]`
/// with `as_str`. Which texts parse, and what they hold, is named, not stated.
#[verifier::external_body]
pub(crate) fn parse_manifest_files(json: &str) -> (r: Result<Option<Vec<ManifestFileRef>>, String>)
    ensures
        manifest_view(r) == spec_manifest_files(json@),
{
    let v: serde_json::Value = serde_json::from_str(json).map_err(|e| e.to_string())?;
    Ok(v["files"].as_array().map(|arr| {
        arr.iter().map(|f| ManifestFileRef {
            name: f["name"].as_str().map(|s| s.to_string()),
            sha256: f["sha256"].as_str().map(|s| s.to_string()),
        }).collect()
    }))
}

} // verus!
