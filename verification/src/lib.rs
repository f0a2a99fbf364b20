//! Core of a version-resolving launcher: rule evaluation against a platform
//! and a set of capability flags, compilation of rule-gated argument
//! templates, and a digest-verified download cache.

pub mod argument;
pub mod download;
pub mod library;
pub mod rule;
pub mod version;
