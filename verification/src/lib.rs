//! Verified core of a command-line version manager for Android Studio:
//! a release catalog with a deterministic query-resolution cascade,
//! installed-bundle metadata extraction, and reconciliation of the catalog
//! against what is installed on disk.

pub mod active;
pub mod config;
pub mod detector;
pub mod downloader;
pub mod error;
pub mod installed;
pub mod installer;
pub mod list;
pub mod model;
pub mod search;
pub mod text;
