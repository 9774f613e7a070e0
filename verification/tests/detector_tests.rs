use astudios::config::Config;
use astudios::detector::{
    macos_version_ok, DetectionResult, NetworkProbe, SystemDetector, SystemProbes,
};
use astudios::downloader::Downloader;

fn good_probes() -> SystemProbes {
    SystemProbes {
        os: "macos".to_string(),
        arch: "aarch64".to_string(),
        macos_version: Some("14.5".to_string()),
        install_dir: "/Users/dev/.astudios/versions".to_string(),
        applications_dir: "/Applications".to_string(),
        install_space: Some(50 * 1024 * 1024 * 1024),
        applications_space: Some(100 * 1024 * 1024 * 1024),
        install_writable: true,
        applications_writable: true,
        network: NetworkProbe::Reachable,
        tools_available: vec![true, true, true, true],
        aria2_available: true,
        java_available: true,
    }
}

#[test]
fn test_detection_result_accumulates_findings() {
    let fresh: DetectionResult = Default::default();
    assert!(!fresh.is_valid());
    assert!(fresh.issues.is_empty());
    assert!(fresh.warnings.is_empty());

    let mut result = DetectionResult::new();
    assert!(!result.is_valid());
    assert!(!result.has_warnings());

    result.add_issue("an issue".to_string());
    result.add_warning("a warning".to_string());
    assert_eq!(result.issues, vec!["an issue".to_string()]);
    assert_eq!(result.warnings, vec!["a warning".to_string()]);
    assert!(result.has_warnings());
}

#[test]
fn test_detect_all_checks_pass() {
    let result = SystemDetector::detect_system_requirements(&good_probes());
    assert!(result.is_valid());
    assert!(result.platform_compatible);
    assert!(result.disk_space_sufficient);
    assert!(result.permissions_valid);
    assert!(result.network_available);
    assert!(result.dependencies_available);
    assert!(result.java_runtime_available);
    assert!(result.issues.is_empty());
    assert!(result.warnings.is_empty());
}

#[test]
fn test_detect_unsupported_platform() {
    let mut probes = good_probes();
    probes.os = "linux".to_string();
    let result = SystemDetector::detect_system_requirements(&probes);
    assert!(!result.platform_compatible);
    assert!(!result.is_valid());
    assert_eq!(
        result.issues[0],
        "Unsupported operating system: linux. This tool only supports macOS."
    );
}

#[test]
fn test_detect_old_macos_version() {
    let mut probes = good_probes();
    probes.macos_version = Some("10.13.6".to_string());
    let result = SystemDetector::detect_system_requirements(&probes);
    assert!(!result.platform_compatible);
    assert_eq!(
        result.issues[0],
        "macOS version 10.13.6 is not supported. Android Studio requires macOS 10.14 or later."
    );

    let mut probes = good_probes();
    probes.macos_version = None;
    let result = SystemDetector::detect_system_requirements(&probes);
    assert!(result.platform_compatible);
    assert_eq!(result.warnings[0], "Could not determine macOS version");
}

#[test]
fn test_detect_insufficient_space_message() {
    let mut probes = good_probes();
    // 5.5 GiB available in the install directory.
    probes.install_space = Some(5 * 1024 * 1024 * 1024 + 512 * 1024 * 1024);
    let result = SystemDetector::detect_system_requirements(&probes);
    assert!(!result.disk_space_sufficient);
    assert_eq!(
        result.issues[0],
        "Insufficient disk space in /Users/dev/.astudios/versions. \
         Required: 8 GB, Available: 5.5 GB"
    );
}

#[test]
fn test_detect_space_probe_failure_is_warning() {
    let mut probes = good_probes();
    probes.install_space = None;
    let result = SystemDetector::detect_system_requirements(&probes);
    assert!(result.disk_space_sufficient);
    assert_eq!(
        result.warnings[0],
        "Could not verify available disk space. Ensure you have sufficient space for installation."
    );
}

#[test]
fn test_detect_missing_tools_and_permissions() {
    let mut probes = good_probes();
    probes.applications_writable = false;
    probes.tools_available = vec![true, true, false, true];
    probes.network = NetworkProbe::HttpStatus("503".to_string());
    probes.aria2_available = false;
    probes.java_available = false;
    let result = SystemDetector::detect_system_requirements(&probes);
    assert!(!result.permissions_valid);
    assert!(!result.network_available);
    assert!(!result.dependencies_available);
    assert_eq!(
        result.issues,
        vec![
            "No write permission for applications directory: /Applications. \
             You may need administrator privileges."
                .to_string(),
            "JetBrains API is not accessible (HTTP 503). Check your internet connection."
                .to_string(),
            "Required tool 'hdiutil' not found in PATH. Please install it and try again."
                .to_string(),
            "hdiutil not found. This tool is required for extracting DMG files on macOS."
                .to_string(),
        ]
    );
    assert_eq!(result.warnings.len(), 2);
}

#[test]
fn test_macos_version_floor() {
    assert!(macos_version_ok("14.5"));
    assert!(macos_version_ok("10.14"));
    assert!(!macos_version_ok("10.13.6"));
    assert!(!macos_version_ok("9.9"));
    // An unreadable version passes; the probe then only warns elsewhere.
    assert!(macos_version_ok("fourteen"));
    assert!(macos_version_ok("14"));
}

#[test]
fn test_parse_df_output() {
    let output = "Filesystem 1024-blocks      Used Available Capacity Mounted on\n\
                  /dev/disk3s5 971350180 249227064 704481920    27%    /System/Volumes/Data\n";
    assert_eq!(
        SystemDetector::parse_df_available_bytes(output),
        Some(704481920 * 1024)
    );
    assert_eq!(SystemDetector::parse_df_available_bytes("garbage"), None);
    assert_eq!(
        SystemDetector::parse_df_available_bytes("header only\nshort line"),
        None
    );
}

#[test]
fn test_required_tools() {
    let tools = SystemDetector::get_required_tools();
    assert_eq!(
        tools,
        vec![
            "ditto".to_string(),
            "rm".to_string(),
            "hdiutil".to_string(),
            "codesign".to_string()
        ]
    );
}

#[test]
fn test_downloader_selection_and_description() {
    let aria2 = Downloader::detect_best(Some("/opt/homebrew/bin/aria2c".to_string()));
    assert_eq!(aria2.description(), "aria2 (/opt/homebrew/bin/aria2c)");

    let fallback = Downloader::detect_best(None);
    assert_eq!(fallback.description(), "reqwest (built-in HTTP client)");

    let default_choice: Downloader = Default::default();
    assert_eq!(default_choice.description(), "reqwest (built-in HTTP client)");
}

#[test]
fn test_config_values() {
    assert_eq!(Config::min_disk_space_gb(), 8);
    assert_eq!(Config::min_ram_gb(), 8);
    assert_eq!(Config::user_agent(), "astudios/0.1.0");
    assert_eq!(Config::default_applications_dir(), "/Applications");
    assert!(Config::cache_is_fresh(60 * 60 * 23));
    assert!(!Config::cache_is_fresh(60 * 60 * 24));
    let paths = Config::aria2_search_paths();
    assert_eq!(paths.len(), 5);
    assert_eq!(paths[0], "/usr/local/bin/aria2c");
    assert_eq!(paths[4], "aria2c");
}
