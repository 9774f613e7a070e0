use astudios::model::{
    AndroidStudio, AndroidStudioReleasesList, AndroidStudioVersion, Download,
    InstalledAndroidStudio, ReleaseChannel,
};

fn hedgehog() -> AndroidStudio {
    AndroidStudio {
        name: "Android Studio Hedgehog".to_string(),
        version: "2023.1.1".to_string(),
        build: "AI-231.9392.1.2311.11076708".to_string(),
        date: "2023-07-26".to_string(),
        channel: "Release".to_string(),
        platform_build: "231.9392.1".to_string(),
        platform_version: "2023.1.1".to_string(),
        downloads: vec![Download {
            link: "https://example.com/android-studio-mac.dmg".to_string(),
            size: "1024000000".to_string(),
            checksum: "abc123def456".to_string(),
        }],
    }
}

fn iguana_beta() -> AndroidStudio {
    AndroidStudio {
        name: "Android Studio Iguana".to_string(),
        version: "2023.2.1".to_string(),
        build: "AI-232.1234.5.2321.11234567".to_string(),
        date: "2023-08-15".to_string(),
        channel: "Beta".to_string(),
        platform_build: "232.1234.5".to_string(),
        platform_version: "2023.2.1".to_string(),
        downloads: vec![Download {
            link: "https://example.com/android-studio-beta-mac.dmg".to_string(),
            size: "1100000000".to_string(),
            checksum: "def456ghi789".to_string(),
        }],
    }
}

fn jellyfish_canary() -> AndroidStudio {
    AndroidStudio {
        name: "Android Studio Jellyfish".to_string(),
        version: "2023.3.1".to_string(),
        build: "AI-233.5678.9.2331.11345678".to_string(),
        date: "2023-09-01".to_string(),
        channel: "Canary".to_string(),
        platform_build: "233.5678.9".to_string(),
        platform_version: "2023.3.1".to_string(),
        downloads: vec![],
    }
}

#[test]
fn test_android_studio_model() {
    let android_studio = hedgehog();

    assert_eq!(android_studio.name, "Android Studio Hedgehog");
    assert_eq!(android_studio.version, "2023.1.1");
    assert_eq!(android_studio.build, "AI-231.9392.1.2311.11076708");
    assert_eq!(android_studio.date, "2023-07-26");
    assert_eq!(android_studio.channel, "Release");
    assert_eq!(android_studio.platform_build, "231.9392.1");
    assert_eq!(android_studio.platform_version, "2023.1.1");
    assert_eq!(android_studio.downloads.len(), 1);
    assert_eq!(
        android_studio.downloads[0].link,
        "https://example.com/android-studio-mac.dmg"
    );
    assert_eq!(android_studio.downloads[0].size, "1024000000");
    assert_eq!(android_studio.downloads[0].checksum, "abc123def456");
}

#[test]
fn test_release_channels() {
    let channels = [
        ReleaseChannel::Release,
        ReleaseChannel::Beta,
        ReleaseChannel::Canary,
        ReleaseChannel::ReleaseCandidate,
        ReleaseChannel::Patch,
    ];

    let channel_strings: Vec<String> = channels.iter().map(|c| format!("{c:?}")).collect();
    assert_eq!(
        channel_strings,
        vec!["Release", "Beta", "Canary", "ReleaseCandidate", "Patch"]
    );
}

#[test]
fn test_download_model() {
    let download = Download {
        link: "https://dl.google.com/dl/android/studio/install/2023.1.1.23/android-studio-2023.1.1.23-mac_arm.dmg".to_string(),
        size: "1073741824".to_string(),
        checksum: "sha256:abcdef1234567890".to_string(),
    };

    assert!(download.link.ends_with("mac_arm.dmg"));
    assert_eq!(download.size, "1073741824");
    assert_eq!(download.checksum, "sha256:abcdef1234567890");
}

#[test]
fn test_android_studio_releases_list() {
    let studio_list = AndroidStudioReleasesList {
        version: "1.0".to_string(),
        items: vec![hedgehog(), iguana_beta()],
    };

    assert_eq!(studio_list.version, "1.0");
    assert_eq!(studio_list.items.len(), 2);
    assert_eq!(studio_list.items[0].name, "Android Studio Hedgehog");
    assert_eq!(studio_list.items[0].channel, "Release");
    assert_eq!(studio_list.items[1].name, "Android Studio Iguana");
    assert_eq!(studio_list.items[1].channel, "Beta");
}

#[test]
fn test_android_studio_methods() {
    let stable_release = hedgehog();
    let beta_release = iguana_beta();
    let canary_release = jellyfish_canary();

    assert!(stable_release.is_release());
    assert!(!stable_release.is_beta());
    assert!(!stable_release.is_canary());

    assert!(!beta_release.is_release());
    assert!(beta_release.is_beta());
    assert!(!beta_release.is_canary());

    assert!(!canary_release.is_release());
    assert!(!canary_release.is_beta());
    assert!(canary_release.is_canary());

    assert_eq!(stable_release.display_name(), "Android Studio Hedgehog");
    assert_eq!(beta_release.display_name(), "Android Studio Iguana (Beta)");
    assert_eq!(
        canary_release.display_name(),
        "Android Studio Jellyfish (Canary)"
    );
}

#[test]
fn test_android_studio_version() {
    let version = AndroidStudioVersion::new(
        "2023.1.1".to_string(),
        "AI-231.9392.1.2311.11076708".to_string(),
        "AI".to_string(),
        "231.9392.1.2311.11076708".to_string(),
        "Android Studio".to_string(),
    );

    assert_eq!(
        version.display_version(),
        "2023.1.1 (AI-231.9392.1.2311.11076708)"
    );
    assert_eq!(version.identifier(), "AI-231.9392.1.2311.11076708");
    assert!(version.is_stable());
}

#[test]
fn test_installed_android_studio_display() {
    let version = AndroidStudioVersion::new(
        "2023.1.1".to_string(),
        "AI-231.9392.1.2311.11076708".to_string(),
        "AI".to_string(),
        "231.9392.1.2311.11076708".to_string(),
        "Android Studio".to_string(),
    );

    let installed = InstalledAndroidStudio {
        path: "/Applications/Android Studio Hedgehog.app".to_string(),
        version,
    };

    assert_eq!(installed.display_name(), "Android Studio 2023.1.1");
    assert_eq!(installed.identifier(), "AI-231.9392.1.2311.11076708");
    assert_eq!(installed.path, "/Applications/Android Studio Hedgehog.app");

    // Valid only when both the bundle and its contents directory exist.
    assert!(installed.is_valid(true, true));
    assert!(!installed.is_valid(true, false));
    assert!(!installed.is_valid(false, true));
}

#[test]
fn test_channel_type_conversion() {
    let test_cases = vec![
        ("Release", "Release"),
        ("Beta", "Beta"),
        ("Canary", "Canary"),
        ("RC", "ReleaseCandidate"),
        ("Patch", "Patch"),
        ("Unknown", "Release"), // Default fallback
    ];

    for (input, expected) in test_cases {
        let studio = AndroidStudio {
            name: "Test Studio".to_string(),
            version: "1.0.0".to_string(),
            build: "AI-100.0.0".to_string(),
            date: "2023-01-01".to_string(),
            channel: input.to_string(),
            platform_build: "100.0.0".to_string(),
            platform_version: "1.0.0".to_string(),
            downloads: vec![],
        };
        assert_eq!(format!("{:?}", studio.channel_type()), expected);
    }
}

#[test]
fn test_version_is_stable_detects_prerelease_markers() {
    let beta = AndroidStudioVersion::new(
        "2024.1.1".to_string(),
        "AI-241.1 Beta 2".to_string(),
        "AI".to_string(),
        "241.1".to_string(),
        "Android Studio".to_string(),
    );
    assert!(!beta.is_stable());

    let rc = AndroidStudioVersion::new(
        "2024.1.1".to_string(),
        "AI-241.1 RC 1".to_string(),
        "AI".to_string(),
        "241.1".to_string(),
        "Android Studio".to_string(),
    );
    assert!(!rc.is_stable());
}

#[test]
fn test_macos_download_lookup() {
    let mut studio = hedgehog();
    studio.downloads.insert(
        0,
        Download {
            link: "https://example.com/android-studio-windows.exe".to_string(),
            size: "1".to_string(),
            checksum: "x".to_string(),
        },
    );
    let found = studio.get_macos_download().expect("macOS download expected");
    assert_eq!(found.link, "https://example.com/android-studio-mac.dmg");
    assert!(studio.get_platform_download().is_some());

    let none = jellyfish_canary();
    assert!(none.get_macos_download().is_none());
}

#[test]
fn test_enhanced_display_name_with_api_version() {
    let version = AndroidStudioVersion::new(
        "2023.1.1".to_string(),
        "AI-231.9392.1.2311.11076708".to_string(),
        "AI".to_string(),
        "231.9392.1.2311.11076708".to_string(),
        "Android Studio".to_string(),
    );
    let installed = InstalledAndroidStudio {
        path: "/Applications/Android Studio Beta.app".to_string(),
        version,
    };

    assert_eq!(installed.detect_channel_from_name(), "Beta");
    assert_eq!(
        installed.enhanced_display_name(&Some("2023.1.1.28".to_string())),
        "Android Studio 2023.1.1.28 (Beta)"
    );
    assert_eq!(
        installed.extract_detailed_version(&None),
        "2023.1.1"
    );
}

#[test]
fn test_full_version_reverse_lookup() {
    let list = AndroidStudioReleasesList {
        version: "1.0".to_string(),
        items: vec![hedgehog(), iguana_beta()],
    };
    let version = AndroidStudioVersion::new(
        "2023.2".to_string(),
        "AI-232.1234.5.2321.11234567".to_string(),
        "AI".to_string(),
        "232.1234.5.2321.11234567".to_string(),
        "Android Studio".to_string(),
    );
    let installed = InstalledAndroidStudio {
        path: "/Applications/Android Studio.app".to_string(),
        version,
    };

    assert_eq!(
        installed.get_full_version_from_api(&list),
        Some("2023.2.1".to_string())
    );

    let unknown = InstalledAndroidStudio {
        path: "/Applications/Android Studio.app".to_string(),
        version: AndroidStudioVersion::new(
            "9".to_string(),
            "AI-999".to_string(),
            "AI".to_string(),
            "999".to_string(),
            "Android Studio".to_string(),
        ),
    };
    assert_eq!(unknown.get_full_version_from_api(&list), None);
}
