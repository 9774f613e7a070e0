use astudios::error::AstudiosError;
use astudios::list::AndroidStudioLister;
use astudios::model::{AndroidStudio, AndroidStudioReleasesList, Download};

fn entry(name: &str, version: &str, build: &str, channel: &str) -> AndroidStudio {
    AndroidStudio {
        name: name.to_string(),
        version: version.to_string(),
        build: build.to_string(),
        channel: channel.to_string(),
        platform_build: "0".to_string(),
        platform_version: version.to_string(),
        date: "2023-01-01".to_string(),
        downloads: vec![Download {
            link: "https://example.com/android-studio-mac.dmg".to_string(),
            size: "1".to_string(),
            checksum: "c".to_string(),
        }],
    }
}

fn lister(items: Vec<AndroidStudio>) -> AndroidStudioLister {
    AndroidStudioLister::new(AndroidStudioReleasesList {
        version: "1.0".to_string(),
        items,
    })
}

#[test]
fn test_exact_match_beats_substring_match() {
    // "2023.1.1" is a substring of "2023.1.10", yet the exact match wins
    // even when the longer version stands first in feed order.
    let l = lister(vec![
        entry("Android Studio A", "2023.1.10", "AI-231.10", "Release"),
        entry("Android Studio B", "2023.1.1", "AI-231.1", "Release"),
    ]);
    let found = l.find_version_by_query("2023.1.1").unwrap();
    assert_eq!(found.version, "2023.1.1");
    assert_eq!(found.name, "Android Studio B");
}

#[test]
fn test_version_substring_match_is_case_insensitive() {
    let l = lister(vec![
        entry("Android Studio A", "2023.1.10", "AI-231.10", "Release"),
    ]);
    let found = l.find_version_by_query("023.1").unwrap();
    assert_eq!(found.version, "2023.1.10");
}

#[test]
fn test_name_match_folds_case() {
    // Resolving an upper-case query against a mixed-case display name
    // requires real case folding on both sides.
    let l = lister(vec![
        entry("Android Studio Hedgehog", "2023.1.1", "AI-231.1", "Release"),
        entry("Android Studio Meerkat Feature Drop", "2024.3.2", "AI-243.2", "Release"),
    ]);
    let found = l.find_version_by_query("MEERKAT").unwrap();
    assert_eq!(found.version, "2024.3.2");
}

#[test]
fn test_build_match() {
    let l = lister(vec![
        entry("Android Studio A", "2023.1.1", "AI-231.9392.1", "Release"),
        entry("Android Studio B", "2023.2.1", "AI-232.1234.5", "Beta"),
    ]);
    let found = l.find_version_by_query("232.1234").unwrap();
    assert_eq!(found.version, "2023.2.1");
}

#[test]
fn test_channel_query_resolves_channel_qualified_version() {
    // Two releases share the version prefix; the two-token form picks the
    // one on the named channel.
    let l = lister(vec![
        entry("Android Studio R", "2023.3.1", "AI-233.9.9", "Release"),
        entry("Android Studio C", "2023.3.1", "AI-233.1.1", "Canary"),
    ]);
    let found = l.find_version_by_query("2023.3.1 Canary").unwrap();
    assert_eq!(found.build, "AI-233.1.1");

    // The bare version resolves at the exact-match stage to whichever
    // entry stands first in feed order.
    let bare = l.find_version_by_query("2023.3.1").unwrap();
    assert_eq!(bare.build, "AI-233.9.9");
}

#[test]
fn test_catch_all_matches_version_channel_build_text() {
    let l = lister(vec![
        entry("Android Studio A", "2023.3.1", "AI-233.1.1", "Canary"),
    ]);
    // Matches only the concatenated "version channel build" text, since it
    // spans the version and the channel with a space.
    let found = l.find_version_by_query("2023.3.1 ca").unwrap();
    assert_eq!(found.build, "AI-233.1.1");
}

#[test]
fn test_find_version_not_found() {
    let l = lister(vec![
        entry("Android Studio A", "2023.1.1", "AI-231.1", "Release"),
    ]);
    match l.find_version_by_query("nonexistent-xyz") {
        Err(AstudiosError::VersionNotFound(q)) => assert_eq!(q, "nonexistent-xyz"),
        other => panic!("expected VersionNotFound, got {other:?}"),
    }
}

#[test]
fn test_get_latest_release_and_prerelease() {
    let l = lister(vec![
        entry("Android Studio C", "2024.1.1", "AI-241.1", "Canary"),
        entry("Android Studio B", "2023.3.2", "AI-233.2", "Beta"),
        entry("Android Studio R", "2023.3.1", "AI-233.1", "Release"),
        entry("Android Studio R2", "2023.2.1", "AI-232.1", "Release"),
    ]);
    assert_eq!(l.get_latest_release().unwrap().version, "2023.3.1");
    assert_eq!(l.get_latest_prerelease().unwrap().version, "2024.1.1");

    let only_canary = lister(vec![
        entry("Android Studio C", "2024.1.1", "AI-241.1", "Canary"),
    ]);
    match only_canary.get_latest_release() {
        Err(AstudiosError::VersionNotFound(m)) => {
            assert_eq!(m, "No release versions available")
        }
        other => panic!("expected VersionNotFound, got {other:?}"),
    }
}

#[test]
fn test_filter_by_channel_single_flags() {
    let items = vec![
        entry("Android Studio R", "2023.3.1", "AI-233.1", "Release"),
        entry("Android Studio B", "2023.3.2", "AI-233.2", "Beta"),
        entry("Android Studio C", "2024.1.1", "AI-241.1", "Canary"),
    ];
    let l = lister(items.clone());

    let releases = AndroidStudioReleasesList {
        version: "1.0".to_string(),
        items: items.clone(),
    };
    let only_release = l.filter_by_channel(releases, true, false, false);
    assert_eq!(only_release.len(), 1);
    assert_eq!(only_release[0].channel, "Release");

    let releases = AndroidStudioReleasesList {
        version: "1.0".to_string(),
        items: items.clone(),
    };
    let no_flags = l.filter_by_channel(releases, false, false, false);
    assert_eq!(no_flags.len(), 3);

    let releases = AndroidStudioReleasesList {
        version: "1.0".to_string(),
        items,
    };
    let only_beta = l.filter_by_channel(releases, false, true, false);
    assert_eq!(only_beta.len(), 1);
    assert_eq!(only_beta[0].channel, "Beta");
}

#[test]
fn test_filter_by_channel_two_flags_intersect_to_empty() {
    // Several flags compose as a conjunction, and a release sits on one
    // channel only, so two flags at once leave nothing.
    let items = vec![
        entry("Android Studio R", "2023.3.1", "AI-233.1", "Release"),
        entry("Android Studio B", "2023.3.2", "AI-233.2", "Beta"),
        entry("Android Studio C", "2024.1.1", "AI-241.1", "Canary"),
    ];
    let l = lister(items.clone());

    let releases = AndroidStudioReleasesList {
        version: "1.0".to_string(),
        items: items.clone(),
    };
    assert!(l.filter_by_channel(releases, true, true, false).is_empty());

    let releases = AndroidStudioReleasesList {
        version: "1.0".to_string(),
        items: items.clone(),
    };
    assert!(l.filter_by_channel(releases, true, false, true).is_empty());

    let releases = AndroidStudioReleasesList {
        version: "1.0".to_string(),
        items,
    };
    assert!(l.filter_by_channel(releases, false, true, true).is_empty());
}

#[test]
fn test_find_by_channel_query_requires_two_tokens() {
    let items = vec![
        entry("Android Studio C", "2023.3.1", "AI-233.1.1", "Canary"),
    ];
    let l = lister(items.clone());
    let found = l.find_by_channel_query(&items, "2023.3.1 canary").unwrap();
    assert_eq!(found.build, "AI-233.1.1");

    match l.find_by_channel_query(&items, "2023.3.1") {
        Err(AstudiosError::VersionNotFound(q)) => assert_eq!(q, "2023.3.1"),
        other => panic!("expected VersionNotFound, got {other:?}"),
    }
}

#[test]
fn test_get_releases_returns_catalog() {
    let l = lister(vec![
        entry("Android Studio A", "2023.1.1", "AI-231.1", "Release"),
    ]);
    assert_eq!(l.get_releases().items.len(), 1);
    assert_eq!(l.get_releases().version, "1.0");
}
