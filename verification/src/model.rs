//! Data model of the release feed and of installed bundles: releases,
//! downloads, channels, and the version identity recovered from an
//! installation's metadata.

use vstd::prelude::*;
use crate::search::{first_index_where, lemma_first_index_where_unique};
use crate::text::{contains_seq, file_name_component, file_name_in_path, str_contains, str_eq};

verus! {

/// Download information for a specific platform.
#[derive(Debug, PartialEq, Eq)]
pub struct Download {
    /// Download URL.
    pub link: String,
    /// Human-readable file size.
    pub size: String,
    /// File checksum, vendor-supplied and advisory.
    pub checksum: String,
}

/// Mathematical image of a `Download`.
pub struct DownloadView {
    pub link: Seq<char>,
    pub size: Seq<char>,
    pub checksum: Seq<char>,
}

impl View for Download {
    type V = DownloadView;

    open spec fn view(&self) -> DownloadView {
        DownloadView { link: self.link@, size: self.size@, checksum: self.checksum@ }
    }
}

impl Clone for Download {
    fn clone(&self) -> (r: Self)
        ensures
            r@ == self@,
    {
        Download { link: self.link.clone(), size: self.size.clone(), checksum: self.checksum.clone() }
    }
}

/// One release entry of the vendor feed.
#[derive(Debug, PartialEq, Eq)]
pub struct AndroidStudio {
    /// Human-readable name, e.g. "Android Studio Hedgehog".
    pub name: String,
    /// Build identifier, e.g. "AI-231.9392.1".
    pub build: String,
    /// Version string, e.g. "2023.3.1".
    pub version: String,
    /// Release channel name: "Release", "Beta", "Canary", "RC" or "Patch".
    pub channel: String,
    /// Platform-specific build identifier.
    pub platform_build: String,
    /// Platform version identifier.
    pub platform_version: String,
    /// Release date in YYYY-MM-DD format.
    pub date: String,
    /// Available downloads for the different platforms, in feed order.
    pub downloads: Vec<Download>,
}

/// Mathematical image of an `AndroidStudio` release entry.
pub struct StudioView {
    pub name: Seq<char>,
    pub build: Seq<char>,
    pub version: Seq<char>,
    pub channel: Seq<char>,
    pub platform_build: Seq<char>,
    pub platform_version: Seq<char>,
    pub date: Seq<char>,
    pub downloads: Seq<DownloadView>,
}

impl View for AndroidStudio {
    type V = StudioView;

    open spec fn view(&self) -> StudioView {
        StudioView {
            name: self.name@,
            build: self.build@,
            version: self.version@,
            channel: self.channel@,
            platform_build: self.platform_build@,
            platform_version: self.platform_version@,
            date: self.date@,
            downloads: self.downloads@.map_values(|d: Download| d@),
        }
    }
}

impl Clone for AndroidStudio {
    fn clone(&self) -> (r: Self)
        ensures
            r@ == self@,
    {
        let r = AndroidStudio {
            name: self.name.clone(),
            build: self.build.clone(),
            version: self.version.clone(),
            channel: self.channel.clone(),
            platform_build: self.platform_build.clone(),
            platform_version: self.platform_version.clone(),
            date: self.date.clone(),
            downloads: self.downloads.clone(),
        };
        proof {
            assert forall|i: int| 0 <= i < self.downloads@.len() implies r.downloads@[i]@
                == self.downloads@[i]@ by {
                assert(cloned::<Download>(self.downloads[i], r.downloads[i]));
            }
            assert(r@.downloads =~= self@.downloads);
        }
        r
    }
}

/// The full parsed feed: its version attribute and the releases in feed
/// order, newest first by convention, never resorted.
#[derive(Debug)]
pub struct AndroidStudioReleasesList {
    /// Feed version attribute.
    pub version: String,
    /// Releases, in feed order.
    pub items: Vec<AndroidStudio>,
}

/// Mathematical image of the parsed feed.
pub struct ReleasesListView {
    pub version: Seq<char>,
    pub items: Seq<StudioView>,
}

impl View for AndroidStudioReleasesList {
    type V = ReleasesListView;

    open spec fn view(&self) -> ReleasesListView {
        ReleasesListView {
            version: self.version@,
            items: self.items@.map_values(|s: AndroidStudio| s@),
        }
    }
}

/// Release channel classification.
#[derive(Debug, Clone, Copy, PartialEq, Eq, Structural)]
pub enum ReleaseChannel {
    Release,
    Beta,
    Canary,
    ReleaseCandidate,
    Patch,
}

/// The channel that a feed channel string denotes; unknown strings fall back
/// to `Release`.
pub open spec fn channel_of(c: Seq<char>) -> ReleaseChannel {
    if c == "Release"@ {
        ReleaseChannel::Release
    } else if c == "Beta"@ {
        ReleaseChannel::Beta
    } else if c == "Canary"@ {
        ReleaseChannel::Canary
    } else if c == "RC"@ {
        ReleaseChannel::ReleaseCandidate
    } else if c == "Patch"@ {
        ReleaseChannel::Patch
    } else {
        ReleaseChannel::Release
    }
}

/// The display-name suffix for a channel.
pub open spec fn channel_indicator(c: ReleaseChannel) -> Seq<char> {
    match c {
        ReleaseChannel::Release => ""@,
        ReleaseChannel::Beta => " (Beta)"@,
        ReleaseChannel::Canary => " (Canary)"@,
        ReleaseChannel::ReleaseCandidate => " (RC)"@,
        ReleaseChannel::Patch => " (Patch)"@,
    }
}

/// A download whose URL carries the macOS platform marker.
pub open spec fn is_mac_download(d: DownloadView) -> bool {
    contains_seq(d.link, "mac"@)
}

/// The macOS-download predicate as a value, to pin the search down.
pub open spec fn mac_download_pred() -> spec_fn(DownloadView) -> bool {
    |d: DownloadView| is_mac_download(d)
}

impl AndroidStudio {
    /// Check if this is a stable release.
    pub fn is_release(&self) -> (r: bool)
        ensures
            r == (self@.channel == "Release"@),
    {
        str_eq(self.channel.as_str(), "Release")
    }

    /// Check if this is a beta release.
    pub fn is_beta(&self) -> (r: bool)
        ensures
            r == (self@.channel == "Beta"@),
    {
        str_eq(self.channel.as_str(), "Beta")
    }

    /// Check if this is a canary release.
    pub fn is_canary(&self) -> (r: bool)
        ensures
            r == (self@.channel == "Canary"@),
    {
        str_eq(self.channel.as_str(), "Canary")
    }

    /// Check if this is a release candidate.
    pub fn is_rc(&self) -> (r: bool)
        ensures
            r == (self@.channel == "RC"@),
    {
        str_eq(self.channel.as_str(), "RC")
    }

    /// Check if this is a patch release.
    pub fn is_patch(&self) -> (r: bool)
        ensures
            r == (self@.channel == "Patch"@),
    {
        str_eq(self.channel.as_str(), "Patch")
    }

    /// Get the release channel as an enum.
    pub fn channel_type(&self) -> (r: ReleaseChannel)
        ensures
            r == channel_of(self@.channel),
    {
        if self.is_release() {
            ReleaseChannel::Release
        } else if self.is_beta() {
            ReleaseChannel::Beta
        } else if self.is_canary() {
            ReleaseChannel::Canary
        } else if self.is_rc() {
            ReleaseChannel::ReleaseCandidate
        } else if self.is_patch() {
            ReleaseChannel::Patch
        } else {
            ReleaseChannel::Release
        }
    }

    /// Get the first download whose URL carries the macOS marker.
    pub fn get_macos_download(&self) -> (r: Option<&Download>)
        ensures
            match r {
                Option::Some(d) => {
                    &&& first_index_where(self@.downloads, mac_download_pred()) is Some
                    &&& d@ == self@.downloads[first_index_where(
                        self@.downloads,
                        mac_download_pred(),
                    )->Some_0]
                },
                Option::None => first_index_where(self@.downloads, mac_download_pred()) is None,
            },
    {
        let n = self.downloads.len();
        let mut i: usize = 0;
        while i < n
            invariant
                n == self.downloads@.len(),
                i <= n,
                forall|j: int| 0 <= j < i ==> !mac_download_pred()(self@.downloads[j]),
            decreases n - i,
        {
            if str_contains(self.downloads[i].link.as_str(), "mac") {
                proof {
                    lemma_first_index_where_unique(self@.downloads, mac_download_pred(), i as int);
                }
                return Some(&self.downloads[i]);
            }
            i += 1;
        }
        proof {
            crate::search::lemma_first_index_where(self@.downloads, mac_download_pred());
        }
        None
    }

    /// Get the download for the current platform (macOS).
    pub fn get_platform_download(&self) -> (r: Option<&Download>)
        ensures
            match r {
                Option::Some(d) => {
                    &&& first_index_where(self@.downloads, mac_download_pred()) is Some
                    &&& d@ == self@.downloads[first_index_where(
                        self@.downloads,
                        mac_download_pred(),
                    )->Some_0]
                },
                Option::None => first_index_where(self@.downloads, mac_download_pred()) is None,
            },
    {
        self.get_macos_download()
    }

    /// Get the display name with its channel indicator.
    pub fn display_name(&self) -> (r: String)
        ensures
            r@ == self@.name + channel_indicator(channel_of(self@.channel)),
    {
        let indicator: &str = match self.channel_type() {
            ReleaseChannel::Release => "",
            ReleaseChannel::Beta => " (Beta)",
            ReleaseChannel::Canary => " (Canary)",
            ReleaseChannel::ReleaseCandidate => " (RC)",
            ReleaseChannel::Patch => " (Patch)",
        };
        self.name.clone().concat(indicator)
    }
}

/// Version identity extracted from an installation's metadata files.
#[derive(Debug, PartialEq, Eq, PartialOrd, Ord)]
pub struct AndroidStudioVersion {
    /// Short version string, e.g. "2025.1".
    pub short_version: String,
    /// Full build version, e.g. "AI-251.26094.121.2513.14007798".
    pub build_version: String,
    /// Product code, e.g. "AI".
    pub product_code: String,
    /// Build number without the product code.
    pub build_number: String,
    /// Human-readable product name, e.g. "Android Studio".
    pub product_name: String,
}

/// Mathematical image of an `AndroidStudioVersion`.
pub struct VersionView {
    pub short_version: Seq<char>,
    pub build_version: Seq<char>,
    pub product_code: Seq<char>,
    pub build_number: Seq<char>,
    pub product_name: Seq<char>,
}

impl View for AndroidStudioVersion {
    type V = VersionView;

    open spec fn view(&self) -> VersionView {
        VersionView {
            short_version: self.short_version@,
            build_version: self.build_version@,
            product_code: self.product_code@,
            build_number: self.build_number@,
            product_name: self.product_name@,
        }
    }
}

impl Clone for AndroidStudioVersion {
    fn clone(&self) -> (r: Self)
        ensures
            r@ == self@,
    {
        AndroidStudioVersion {
            short_version: self.short_version.clone(),
            build_version: self.build_version.clone(),
            product_code: self.product_code.clone(),
            build_number: self.build_number.clone(),
            product_name: self.product_name.clone(),
        }
    }
}

impl AndroidStudioVersion {
    /// Create a new version from its components.
    pub fn new(
        short_version: String,
        build_version: String,
        product_code: String,
        build_number: String,
        product_name: String,
    ) -> (r: Self)
        ensures
            r@.short_version == short_version@,
            r@.build_version == build_version@,
            r@.product_code == product_code@,
            r@.build_number == build_number@,
            r@.product_name == product_name@,
    {
        AndroidStudioVersion { short_version, build_version, product_code, build_number, product_name }
    }

    /// A display-friendly version string: the short version with the build
    /// version in parentheses.
    pub fn display_version(&self) -> (r: String)
        ensures
            r@ == self@.short_version + " ("@ + self@.build_version + ")"@,
    {
        self.short_version.clone().concat(" (").concat(self.build_version.as_str()).concat(")")
    }

    /// The unique identifier of this version: its full build version.
    pub fn identifier(&self) -> (r: String)
        ensures
            r@ == self@.build_version,
    {
        self.build_version.clone()
    }

    /// Whether this is a stable release: its build version names no
    /// pre-release channel.
    pub fn is_stable(&self) -> (r: bool)
        ensures
            r == (!contains_seq(self@.build_version, "Beta"@) && !contains_seq(
                self@.build_version,
                "Canary"@,
            ) && !contains_seq(self@.build_version, "RC"@)),
    {
        !str_contains(self.build_version.as_str(), "Beta") && !str_contains(
            self.build_version.as_str(),
            "Canary",
        ) && !str_contains(self.build_version.as_str(), "RC")
    }
}

/// An installed instance: the bundle path paired with the version identity
/// read from its metadata.
#[derive(Debug, PartialEq, Eq)]
pub struct InstalledAndroidStudio {
    /// Path of the application bundle.
    pub path: String,
    /// Parsed version information from metadata.
    pub version: AndroidStudioVersion,
}

/// Mathematical image of an `InstalledAndroidStudio`.
pub struct InstalledView {
    pub path: Seq<char>,
    pub version: VersionView,
}

impl View for InstalledAndroidStudio {
    type V = InstalledView;

    open spec fn view(&self) -> InstalledView {
        InstalledView { path: self.path@, version: self.version@ }
    }
}

impl Clone for InstalledAndroidStudio {
    fn clone(&self) -> (r: Self)
        ensures
            r@ == self@,
    {
        InstalledAndroidStudio { path: self.path.clone(), version: self.version.clone() }
    }
}

/// A feed entry whose build identifier equals `b`.
pub open spec fn build_equals_pred(b: Seq<char>) -> spec_fn(StudioView) -> bool {
    |s: StudioView| s.build == b
}

/// The channel information that an installed bundle's file name reveals.
pub open spec fn channel_from_name(n: Seq<char>) -> Seq<char> {
    if contains_seq(n, "Patch"@) {
        "Patch"@
    } else if contains_seq(n, "Feature Drop"@) {
        "Feature Drop"@
    } else if contains_seq(n, "Beta"@) {
        "Beta"@
    } else if contains_seq(n, "Canary"@) {
        "Canary"@
    } else if contains_seq(n, "RC"@) {
        "RC"@
    } else {
        "Release"@
    }
}

/// The detailed version to show: the catalog's version for this build when
/// the catalog knows it, the short version otherwise.
pub open spec fn detailed_version_spec(v: InstalledView, api: Option<Seq<char>>) -> Seq<char> {
    match api {
        Option::Some(a) => a,
        Option::None => v.version.short_version,
    }
}

/// The enhanced display name: product name, detailed version, and the
/// channel information from the bundle name in parentheses when present.
pub open spec fn enhanced_name_spec(v: InstalledView, api: Option<Seq<char>>) -> Seq<char> {
    if channel_from_name(file_name_in_path(v.path)).len() == 0 {
        v.version.product_name + " "@ + detailed_version_spec(v, api)
    } else {
        v.version.product_name + " "@ + detailed_version_spec(v, api) + " ("@ + channel_from_name(
            file_name_in_path(v.path),
        ) + ")"@
    }
}

/// The view of an optional string.
pub open spec fn option_str_view(o: Option<String>) -> Option<Seq<char>> {
    match o {
        Option::Some(s) => Option::Some(s@),
        Option::None => Option::None,
    }
}

impl InstalledAndroidStudio {
    /// The display name for this installation: product name and short
    /// version.
    pub fn display_name(&self) -> (r: String)
        ensures
            r@ == self@.version.product_name + " "@ + self@.version.short_version,
    {
        self.version.product_name.clone().concat(" ").concat(self.version.short_version.as_str())
    }

    /// The detailed version, preferring the catalog's version over the
    /// short version from the bundle metadata.
    pub fn extract_detailed_version(&self, api_version: &Option<String>) -> (r: String)
        ensures
            r@ == detailed_version_spec(self@, option_str_view(*api_version)),
    {
        match api_version {
            Option::Some(v) => v.clone(),
            Option::None => self.version.short_version.clone(),
        }
    }

    /// The full version number of this build according to the catalog: the
    /// version of the first feed entry whose build identifier equals this
    /// installation's build version.
    pub fn get_full_version_from_api(&self, releases: &AndroidStudioReleasesList) -> (r: Option<
        String,
    >)
        ensures
            match r {
                Option::Some(v) => {
                    &&& first_index_where(
                        releases@.items,
                        build_equals_pred(self@.version.build_version),
                    ) is Some
                    &&& v@ == releases@.items[first_index_where(
                        releases@.items,
                        build_equals_pred(self@.version.build_version),
                    )->Some_0].version
                },
                Option::None => first_index_where(
                    releases@.items,
                    build_equals_pred(self@.version.build_version),
                ) is None,
            },
    {
        let ghost pred = build_equals_pred(self@.version.build_version);
        let n = releases.items.len();
        let mut i: usize = 0;
        while i < n
            invariant
                n == releases.items@.len(),
                i <= n,
                pred == build_equals_pred(self@.version.build_version),
                forall|j: int| 0 <= j < i ==> !pred(releases@.items[j]),
            decreases n - i,
        {
            if str_eq(releases.items[i].build.as_str(), self.version.build_version.as_str()) {
                proof {
                    lemma_first_index_where_unique(releases@.items, pred, i as int);
                }
                return Some(releases.items[i].version.clone());
            }
            i += 1;
        }
        proof {
            crate::search::lemma_first_index_where(releases@.items, pred);
        }
        None
    }

    /// Detect release channel information from the bundle's file name.
    pub fn detect_channel_from_name(&self) -> (r: String)
        ensures
            r@ == channel_from_name(file_name_in_path(self@.path)),
    {
        let app_name: &str = file_name_component(self.path.as_str());
        if str_contains(app_name, "Patch") {
            String::from_str("Patch")
        } else if str_contains(app_name, "Feature Drop") {
            String::from_str("Feature Drop")
        } else if str_contains(app_name, "Beta") {
            String::from_str("Beta")
        } else if str_contains(app_name, "Canary") {
            String::from_str("Canary")
        } else if str_contains(app_name, "RC") {
            String::from_str("RC")
        } else {
            String::from_str("Release")
        }
    }

    /// The enhanced display name with detailed version and channel
    /// information.
    pub fn enhanced_display_name(&self, api_version: &Option<String>) -> (r: String)
        ensures
            r@ == enhanced_name_spec(self@, option_str_view(*api_version)),
    {
        let detailed_version = self.extract_detailed_version(api_version);
        let channel_info = self.detect_channel_from_name();
        if channel_info.as_str().unicode_len() == 0 {
            self.version.product_name.clone().concat(" ").concat(detailed_version.as_str())
        } else {
            self.version.product_name.clone().concat(" ").concat(detailed_version.as_str()).concat(
                " (",
            ).concat(channel_info.as_str()).concat(")")
        }
    }

    /// The unique identifier of this installation: its build version.
    pub fn identifier(&self) -> (r: String)
        ensures
            r@ == self@.version.build_version,
    {
        self.version.identifier()
    }

    /// Whether this installation is valid and accessible, judged from what
    /// a filesystem probe observed: the bundle path exists and so does its
    /// contents directory.
    pub fn is_valid(&self, path_exists: bool, contents_exists: bool) -> (r: bool)
        ensures
            r == (path_exists && contents_exists),
    {
        path_exists && contents_exists
    }
}

} // verus!
