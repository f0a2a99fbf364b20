//! Supporting packages: downloadable artifacts optionally gated by rules.

use vstd::prelude::*;

use crate::rule::{Features, HostPlatform, Rule};
use crate::rule::{rules_allow, spec_rules_allow};

verus! {

/// One supporting package of a version.
#[derive(Debug)]
pub struct Library {
    pub downloads: LibraryDownloads,
    pub name: String,
    pub rules: Option<Vec<Rule>>,
}

/// The downloadable artifacts of a package.
#[derive(Debug)]
pub struct LibraryDownloads {
    pub artifact: Option<LibraryDownload>,
}

/// One downloadable artifact: where it goes, what it must hash to, and
/// where it comes from.
#[derive(Debug)]
pub struct LibraryDownload {
    pub path: String,
    pub sha1: String,
    pub size: u32,
    pub url: String,
}

impl Library {
    /// Whether this package is required under the given features and
    /// host: a package with no rule gate always is; a gated one exactly
    /// when every rule allows it.
    pub open spec fn spec_required(&self, present: Features, host: HostPlatform) -> bool {
        match &self.rules {
            Some(rules) => spec_rules_allow(rules@, present, host),
            None => true,
        }
    }

    /// Evaluate this package's rule gate.
    pub fn is_required(&self, present_features: Features, host: &HostPlatform) -> (r: bool)
        ensures
            r == self.spec_required(present_features, *host),
    {
        match &self.rules {
            Some(rules) => rules_allow(rules, present_features, host),
            None => true,
        }
    }
}

/// The indices, in order, of the packages that the rule gate requires
/// under the given features and host and that carry an artifact, starting
/// the scan at `i`.
pub open spec fn spec_required_artifact_indices(
    libs: Seq<Library>,
    present: Features,
    host: HostPlatform,
    i: int,
) -> Seq<int>
    decreases libs.len() - i,
{
    if i < 0 || i >= libs.len() {
        Seq::empty()
    } else if libs[i].spec_required(present, host) && libs[i].downloads.artifact is Some {
        seq![i] + spec_required_artifact_indices(libs, present, host, i + 1)
    } else {
        spec_required_artifact_indices(libs, present, host, i + 1)
    }
}

/// The packages to materialize for one resolution: each required package
/// that carries an artifact, by index, in order.
pub fn required_artifact_indices(
    libraries: &Vec<Library>,
    present_features: Features,
    host: &HostPlatform,
) -> (r: Vec<usize>)
    ensures
        r@.map_values(|u: usize| u as int) == spec_required_artifact_indices(
            libraries@,
            present_features,
            *host,
            0,
        ),
        forall|k: int| 0 <= k < r@.len() ==> r@[k] < libraries@.len(),
{
    let ghost goal = spec_required_artifact_indices(libraries@, present_features, *host, 0);
    let mut out: Vec<usize> = Vec::new();
    let mut i: usize = 0;
    proof {
        assert(out@.map_values(|u: usize| u as int) =~= Seq::<int>::empty());
    }
    while i < libraries.len()
        invariant
            i <= libraries@.len(),
            goal == spec_required_artifact_indices(libraries@, present_features, *host, 0),
            goal =~= out@.map_values(|u: usize| u as int) + spec_required_artifact_indices(
                libraries@,
                present_features,
                *host,
                i as int,
            ),
            forall|k: int| 0 <= k < out@.len() ==> out@[k] < libraries@.len(),
        decreases libraries@.len() - i,
    {
        let lib = &libraries[i];
        if lib.is_required(present_features, host) && lib.downloads.artifact.is_some() {
            let ghost before = out@;
            out.push(i);
            proof {
                assert(out@.map_values(|u: usize| u as int) =~= before.map_values(
                    |u: usize| u as int,
                ).push(i as int));
            }
        }
        i = i + 1;
    }
    out
}

} // verus!
