use astudios::error::AstudiosError;
use astudios::model::{AndroidStudioVersion, InstalledAndroidStudio};

#[test]
fn test_error_variants() {
    let errors = vec![
        AstudiosError::General("General error message".to_string()),
        AstudiosError::VersionNotFound("2023.1.1".to_string()),
        AstudiosError::Download("Download failed".to_string()),
        AstudiosError::Installation("Installation failed".to_string()),
        AstudiosError::Extraction("Extraction failed".to_string()),
        AstudiosError::Config("Configuration error".to_string()),
        AstudiosError::PrerequisiteNotMet("Prerequisite check failed".to_string()),
        AstudiosError::InsufficientResources("Not enough resources".to_string()),
        AstudiosError::PermissionDenied("Permission denied".to_string()),
        AstudiosError::NetworkUnavailable("Network timeout".to_string()),
        AstudiosError::Path("Invalid path".to_string()),
        AstudiosError::Platform("Platform error".to_string()),
        AstudiosError::Cache("Cache error".to_string()),
        AstudiosError::Parse("Parse error".to_string()),
        AstudiosError::DownloaderNotFound("aria2 not found".to_string()),
    ];

    let expected = vec![
        ("General", "Error: General error message".to_string()),
        (
            "VersionNotFound",
            "Version '2023.1.1' not found. Use 'astudios list' to see available versions."
                .to_string(),
        ),
        ("Download", "Download error: Download failed".to_string()),
        (
            "Installation",
            "Installation error: Installation failed".to_string(),
        ),
        (
            "Extraction",
            "Extraction error: Extraction failed".to_string(),
        ),
        ("Config", "Configuration error: Configuration error".to_string()),
        (
            "PrerequisiteNotMet",
            "Prerequisite not met: Prerequisite check failed".to_string(),
        ),
        (
            "InsufficientResources",
            "Insufficient resources: Not enough resources".to_string(),
        ),
        (
            "PermissionDenied",
            "Permission denied: Permission denied".to_string(),
        ),
        (
            "NetworkUnavailable",
            "Network unavailable: Network timeout".to_string(),
        ),
        ("Path", "Path error: Invalid path".to_string()),
        ("Platform", "Platform error: Platform error".to_string()),
        ("Cache", "Cache error: Cache error".to_string()),
        ("Parse", "Parse error: Parse error".to_string()),
        (
            "DownloaderNotFound",
            "Downloader not found: aria2 not found".to_string(),
        ),
    ];

    let rendered: Vec<(String, String)> = errors
        .iter()
        .map(|e| {
            let variant_name = format!("{e:?}")
                .split('(')
                .next()
                .unwrap_or("Unknown")
                .to_string();
            (variant_name, e.message())
        })
        .collect();

    for ((name, message), (expected_name, expected_message)) in
        rendered.iter().zip(expected.iter())
    {
        assert_eq!(name, expected_name);
        assert_eq!(message, expected_message);
    }
}

#[test]
fn test_error_context() {
    let errors_with_context = vec![
        (
            "download_failure",
            AstudiosError::Download(
                "Failed to download Android Studio 2023.1.1: Connection timeout".to_string(),
            ),
            "Download error: Failed to download Android Studio 2023.1.1: Connection timeout",
        ),
        (
            "installation_failure",
            AstudiosError::Installation(
                "Failed to install to /Applications: Permission denied".to_string(),
            ),
            "Installation error: Failed to install to /Applications: Permission denied",
        ),
        (
            "extraction_failure",
            AstudiosError::Extraction("Failed to extract DMG: Invalid archive format".to_string()),
            "Extraction error: Failed to extract DMG: Invalid archive format",
        ),
        (
            "prerequisite_failure",
            AstudiosError::PrerequisiteNotMet(
                "System requirements not met: macOS 10.14+ required".to_string(),
            ),
            "Prerequisite not met: System requirements not met: macOS 10.14+ required",
        ),
        (
            "version_not_found",
            AstudiosError::VersionNotFound("2023.1.1".to_string()),
            "Version '2023.1.1' not found. Use 'astudios list' to see available versions.",
        ),
        (
            "permission_denied",
            AstudiosError::PermissionDenied("Cannot write to /Applications directory".to_string()),
            "Permission denied: Cannot write to /Applications directory",
        ),
    ];

    for (context, error, expected) in errors_with_context {
        assert_eq!(error.message(), expected, "context: {context}");
    }
}

#[test]
fn test_error_categorization() {
    let errors = vec![
        AstudiosError::NetworkUnavailable("Timeout".to_string()),
        AstudiosError::Download("Download failed".to_string()),
        AstudiosError::Installation("Installation failed".to_string()),
        AstudiosError::PermissionDenied("Permission denied".to_string()),
        AstudiosError::InsufficientResources("Disk full".to_string()),
        AstudiosError::Config("Config error".to_string()),
        AstudiosError::General("General error".to_string()),
        AstudiosError::VersionNotFound("1.0.0".to_string()),
        AstudiosError::PrerequisiteNotMet("Missing dependency".to_string()),
    ];

    let categorized_errors: Vec<(String, bool, bool, bool)> = errors
        .into_iter()
        .map(|e| {
            let is_network_related = matches!(
                e,
                AstudiosError::Network(_) | AstudiosError::NetworkUnavailable(_)
            );
            let is_user_actionable = matches!(
                e,
                AstudiosError::PermissionDenied(_)
                    | AstudiosError::InsufficientResources(_)
                    | AstudiosError::Config(_)
                    | AstudiosError::PrerequisiteNotMet(_)
            );
            let is_retryable = matches!(
                e,
                AstudiosError::Network(_)
                    | AstudiosError::NetworkUnavailable(_)
                    | AstudiosError::Download(_)
            );

            let variant_name = format!("{e:?}")
                .split('(')
                .next()
                .unwrap_or("Unknown")
                .to_string();

            (
                variant_name,
                is_network_related,
                is_user_actionable,
                is_retryable,
            )
        })
        .collect();

    let expected = vec![
        ("NetworkUnavailable", true, false, true),
        ("Download", false, false, true),
        ("Installation", false, false, false),
        ("PermissionDenied", false, true, false),
        ("InsufficientResources", false, true, false),
        ("Config", false, true, false),
        ("General", false, false, false),
        ("VersionNotFound", false, false, false),
        ("PrerequisiteNotMet", false, true, false),
    ];

    for ((name, net, act, retry), (en, enet, eact, eretry)) in
        categorized_errors.iter().zip(expected.iter())
    {
        assert_eq!(name, en);
        assert_eq!(net, enet);
        assert_eq!(act, eact);
        assert_eq!(retry, eretry);
    }
}

#[test]
fn test_ambiguous_match_message_lists_candidates() {
    let a = InstalledAndroidStudio {
        path: "/Applications/Android Studio 1.app".to_string(),
        version: AndroidStudioVersion::new(
            "2025.1".to_string(),
            "AI-251.1".to_string(),
            "AI".to_string(),
            "251.1".to_string(),
            "Android Studio".to_string(),
        ),
    };
    let b = InstalledAndroidStudio {
        path: "/Applications/Android Studio 2.app".to_string(),
        version: AndroidStudioVersion::new(
            "2025.1".to_string(),
            "AI-251.2".to_string(),
            "AI".to_string(),
            "251.2".to_string(),
            "Android Studio".to_string(),
        ),
    };
    let err = AstudiosError::AmbiguousMatch(vec![a, b]);
    let message = err.message();
    assert_eq!(
        message,
        "Multiple installed versions match; candidates:\
         \n  - Android Studio 2025.1 | Build: AI-251.1 | Path: /Applications/Android Studio 1.app\
         \n  - Android Studio 2025.1 | Build: AI-251.2 | Path: /Applications/Android Studio 2.app"
    );
}
