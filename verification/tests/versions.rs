use pit::library::{Library, LibraryDownload, LibraryDownloads, required_artifact_indices};
use pit::rule::{Architecture, Features, HostPlatform, OperatingSystem, Rule, RuleAction};
use pit::version::{
    LatestVersions, Object, Version, VersionManifest, VersionType, join_with,
};

fn host() -> HostPlatform {
    HostPlatform { os: OperatingSystem::Linux, arch: Architecture::X64 }
}

fn version(id: &str) -> Version {
    Version {
        id: id.to_string(),
        version_type: VersionType::Release,
        url: format!("https://example.invalid/{}.json", id),
        time: "2024-01-01T00:00:00+00:00".to_string(),
        release_time: "2024-01-01T00:00:00+00:00".to_string(),
        sha1: "da39a3ee5e6b4b0d3255bfef95601890afd80709".to_string(),
        compliance_level: 1,
    }
}

fn manifest() -> VersionManifest {
    VersionManifest {
        latest: LatestVersions {
            release: "1.21".to_string(),
            snapshot: "24w01a".to_string(),
        },
        versions: vec![version("24w01a"), version("1.21"), version("1.20.6")],
    }
}

#[test]
fn find_selects_the_named_version() {
    let manifest = manifest();
    let found = manifest
        .find(&manifest.latest.release)
        .expect("the latest release must be found");
    assert_eq!(found.id, "1.21");
}

#[test]
fn find_fails_on_an_unknown_id() {
    let manifest = manifest();
    assert!(manifest.find(&"0.0.0".to_string()).is_none());
}

#[test]
fn object_path_is_content_addressed() {
    let object = Object {
        hash: "a9993e364706816aba3e25717850c26c9cd0d89d".to_string(),
        size: 3,
    };
    assert_eq!(
        object.rel_path(),
        "a9/a9993e364706816aba3e25717850c26c9cd0d89d".to_string()
    );
}

#[test]
fn classpath_joins_with_separator() {
    let parts = vec!["client.jar".to_string(), "libraries/a.jar".to_string()];
    assert_eq!(join_with(&parts, ":"), "client.jar:libraries/a.jar".to_string());
    assert_eq!(join_with(&vec!["only.jar".to_string()], ":"), "only.jar".to_string());
    assert_eq!(join_with(&Vec::new(), ":"), String::new());
}

fn library(rules: Option<Vec<Rule>>, artifact: bool) -> Library {
    Library {
        downloads: LibraryDownloads {
            artifact: if artifact {
                Some(LibraryDownload {
                    path: "org/example/example.jar".to_string(),
                    sha1: "da39a3ee5e6b4b0d3255bfef95601890afd80709".to_string(),
                    size: 1,
                    url: "https://example.invalid/example.jar".to_string(),
                })
            } else {
                None
            },
        },
        name: "org.example:example:1".to_string(),
        rules,
    }
}

#[test]
fn required_artifacts_respect_the_rule_gate() {
    let deny = Rule { action: RuleAction::Disallow, platform: None, features: None };
    let allow = Rule { action: RuleAction::Allow, platform: None, features: None };
    let libraries = vec![
        library(None, true),
        library(Some(vec![deny]), true),
        library(Some(vec![allow]), false),
        library(Some(vec![]), true),
    ];
    let indices = required_artifact_indices(&libraries, Features::empty(), &host());
    assert_eq!(indices, vec![0, 3]);
}

#[test]
fn ungated_library_is_required() {
    let lib = library(None, true);
    assert!(lib.is_required(Features::empty(), &host()));
    let gated = library(
        Some(vec![Rule { action: RuleAction::Disallow, platform: None, features: None }]),
        true,
    );
    assert!(!gated.is_required(Features::empty(), &host()));
}
