//! The manifest and per-version data model, and version selection.
//!
//! The remote manifest lists the available versions with their latest
//! pointers; a per-version descriptor carries the argument template, the
//! supporting packages, the primary payloads and the asset-index
//! reference.  Timestamps are carried as the text the documents give and
//! are never inspected.

use vstd::prelude::*;

use crate::argument::Arguments;
use crate::library::Library;

verus! {

/// The top-level manifest: latest pointers plus every known version.
#[derive(Debug)]
pub struct VersionManifest {
    pub latest: LatestVersions,
    pub versions: Vec<Version>,
}

/// The well-known aliases of the manifest.
#[derive(Debug)]
pub struct LatestVersions {
    pub release: String,
    pub snapshot: String,
}

/// One manifest entry.
#[derive(Debug)]
pub struct Version {
    pub id: String,
    pub version_type: VersionType,
    pub url: String,
    pub time: String,
    pub release_time: String,
    pub sha1: String,
    pub compliance_level: u32,
}

/// The stability classification of a version.
#[derive(Debug, Clone, Copy, PartialEq, Eq, Structural)]
pub enum VersionType {
    Release,
    Snapshot,
    OldBeta,
    OldAlpha,
}

/// The index of the first version whose id is `id`, scanning from `i`.
pub open spec fn spec_find_version(versions: Seq<Version>, id: Seq<char>, i: int) -> Option<int>
    decreases versions.len() - i,
{
    if i < 0 || i >= versions.len() {
        None
    } else if versions[i].id@ == id {
        Some(i)
    } else {
        spec_find_version(versions, id, i + 1)
    }
}

impl VersionManifest {
    /// Select the version named `id`: the first manifest entry carrying
    /// that id, or `None` when no entry does — resolution then fails.
    pub fn find(&self, id: &String) -> (r: Option<&Version>)
        ensures
            match r {
                Some(v) => {
                    &&& spec_find_version(self.versions@, id@, 0) matches Some(k) && *v
                        == self.versions@[k]
                    &&& v.id@ == id@
                },
                None => spec_find_version(self.versions@, id@, 0) is None,
            },
    {
        let mut i: usize = 0;
        while i < self.versions.len()
            invariant
                i <= self.versions@.len(),
                spec_find_version(self.versions@, id@, 0) == spec_find_version(
                    self.versions@,
                    id@,
                    i as int,
                ),
            decreases self.versions@.len() - i,
        {
            if self.versions[i].id == *id {
                return Some(&self.versions[i]);
            }
            i = i + 1;
        }
        None
    }
}

/// One resolved version descriptor.
#[derive(Debug)]
pub struct FetchedVersion {
    pub arguments: Arguments,
    pub asset_index: AssetIndex,
    pub assets: String,
    pub compliance_level: Option<u32>,
    pub downloads: Downloads,
    pub id: String,
    pub java_version: Option<JavaVersion>,
    pub libraries: Vec<Library>,
    pub logging: Option<Logging>,
    pub main_class: String,
    pub minimum_launcher_version: u32,
    pub release_time: String,
    pub time: String,
    pub version_type: VersionType,
}

/// The primary payloads of a version.
#[derive(Debug)]
pub struct Downloads {
    pub client: Download,
    pub client_mappings: Option<Download>,
    pub server: Option<Download>,
    pub server_mappings: Option<Download>,
    pub windows_server: Option<Download>,
}

/// One primary payload: expected digest, size and source URL.
#[derive(Debug)]
pub struct Download {
    pub sha1: String,
    pub size: u32,
    pub url: String,
}

/// The asset-index reference of a version.
#[derive(Debug)]
pub struct AssetIndex {
    pub id: String,
    pub sha1: String,
    pub size: u32,
    pub total_size: u32,
    pub url: String,
}

/// The resolved asset index: logical name to content-addressed object,
/// in the order the document listed them.
#[derive(Debug)]
pub struct FetchedAssetIndex {
    pub objects: Vec<(String, Object)>,
}

/// One content-addressed asset object.
#[derive(Debug)]
pub struct Object {
    pub hash: String,
    pub size: u32,
}

impl Object {
    /// The relative path of this object: its first two hash characters,
    /// a slash, then the full hash.  The same shape serves under the
    /// asset subtree and under the fixed download base.
    pub open spec fn spec_rel_path(&self) -> Seq<char> {
        self.hash@.subrange(0, 2) + seq!['/'] + self.hash@
    }

    /// Build the object's relative path.
    pub fn rel_path(&self) -> (r: String)
        requires
            self.hash@.len() >= 2,
        ensures
            r@ == self.spec_rel_path(),
    {
        let mut out = self.hash.as_str().substring_char(0, 2).to_owned();
        out.append("/");
        out.append(self.hash.as_str());
        proof {
            reveal_strlit("/");
            assert(out@ =~= self.spec_rel_path());
        }
        out
    }
}

/// The Java runtime a version asks for.
#[derive(Debug)]
pub struct JavaVersion {
    pub component: String,
    pub major_version: u32,
}

/// The logging configuration of a version.
#[derive(Debug)]
pub struct Logging {
    pub client: LoggingClient,
}

#[derive(Debug)]
pub struct LoggingClient {
    pub argument: String,
    pub file: LoggingFile,
    pub logging_type: String,
}

#[derive(Debug)]
pub struct LoggingFile {
    pub id: String,
    pub sha1: String,
    pub size: u32,
    pub url: String,
}

/// The parts joined in order with the separator between neighbours; the
/// shape of a classpath string.
pub open spec fn spec_join(parts: Seq<Seq<char>>, sep: Seq<char>) -> Seq<char>
    decreases parts.len(),
{
    if parts.len() == 0 {
        Seq::empty()
    } else if parts.len() == 1 {
        parts[0]
    } else {
        spec_join(parts.drop_last(), sep) + sep + parts.last()
    }
}

/// Join path entries with a separator, as a classpath string is built.
pub fn join_with(parts: &Vec<String>, sep: &str) -> (r: String)
    ensures
        r@ == spec_join(parts.deep_view(), sep@),
{
    let ghost goal = spec_join(parts.deep_view(), sep@);
    let mut out = String::new();
    let mut i: usize = 0;
    while i < parts.len()
        invariant
            i <= parts@.len(),
            goal == spec_join(parts.deep_view(), sep@),
            out@ =~= spec_join(parts.deep_view().take(i as int), sep@),
        decreases parts@.len() - i,
    {
        if i > 0 {
            out.append(sep);
        }
        out.append(parts[i].as_str());
        proof {
            assert(parts.deep_view().take(i + 1).drop_last() =~= parts.deep_view().take(i as int));
            assert(parts.deep_view().take(i + 1).last() == parts.deep_view()[i as int]);
        }
        i = i + 1;
    }
    proof {
        assert(parts.deep_view().take(parts@.len() as int) =~= parts.deep_view());
    }
    out
}

} // verus!
