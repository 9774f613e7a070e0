//! Error taxonomy of the library. Variants carry plain descriptions; the
//! ambiguous-match error carries the full candidate list so that a caller
//! can show every match instead of guessing.

use vstd::prelude::*;
use crate::model::{InstalledAndroidStudio, InstalledView};

verus! {

/// Errors surfaced by the library.
#[derive(Debug)]
pub enum AstudiosError {
    /// IO-related errors.
    Io(String),
    /// Network-related errors.
    Network(String),
    /// XML/JSON parsing errors.
    Parse(String),
    /// Configuration errors.
    Config(String),
    /// Version not found errors.
    VersionNotFound(String),
    /// Platform-specific errors.
    Platform(String),
    /// Download errors.
    Download(String),
    /// Installation errors.
    Installation(String),
    /// Archive extraction errors.
    Extraction(String),
    /// Downloader not found errors.
    DownloaderNotFound(String),
    /// Path-related errors.
    Path(String),
    /// Cache-related errors.
    Cache(String),
    /// General application errors.
    General(String),
    /// UTF-8 conversion errors.
    Utf8(String),
    /// ZIP archive errors.
    Zip(String),
    /// System time errors.
    SystemTime(String),
    /// Prerequisite not met errors.
    PrerequisiteNotMet(String),
    /// Insufficient resources errors.
    InsufficientResources(String),
    /// Permission denied errors.
    PermissionDenied(String),
    /// Network unavailable errors.
    NetworkUnavailable(String),
    /// Several installed versions match one identifier; carries every
    /// matching installation.
    AmbiguousMatch(Vec<InstalledAndroidStudio>),
}

/// One line of the ambiguous-match listing.
pub open spec fn candidate_line(v: InstalledView) -> Seq<char> {
    "\n  - "@ + v.version.product_name + " "@ + v.version.short_version + " | Build: "@
        + v.version.build_version + " | Path: "@ + v.path
}

/// The ambiguous-match listing for a sequence of candidates.
pub open spec fn candidate_lines(s: Seq<InstalledView>) -> Seq<char>
    decreases s.len(),
{
    if s.len() == 0 {
        Seq::empty()
    } else {
        candidate_lines(s.drop_last()) + candidate_line(s.last())
    }
}

/// The user-facing message of each error variant.
pub open spec fn message_spec(e: AstudiosError) -> Seq<char> {
    match e {
        AstudiosError::Io(m) => "IO error: "@ + m@,
        AstudiosError::Network(m) => "Network error: "@ + m@,
        AstudiosError::Parse(m) => "Parse error: "@ + m@,
        AstudiosError::Config(m) => "Configuration error: "@ + m@,
        AstudiosError::VersionNotFound(m) => "Version '"@ + m@
            + "' not found. Use 'astudios list' to see available versions."@,
        AstudiosError::Platform(m) => "Platform error: "@ + m@,
        AstudiosError::Download(m) => "Download error: "@ + m@,
        AstudiosError::Installation(m) => "Installation error: "@ + m@,
        AstudiosError::Extraction(m) => "Extraction error: "@ + m@,
        AstudiosError::DownloaderNotFound(m) => "Downloader not found: "@ + m@,
        AstudiosError::Path(m) => "Path error: "@ + m@,
        AstudiosError::Cache(m) => "Cache error: "@ + m@,
        AstudiosError::General(m) => "Error: "@ + m@,
        AstudiosError::Utf8(m) => "UTF-8 error: "@ + m@,
        AstudiosError::Zip(m) => "ZIP error: "@ + m@,
        AstudiosError::SystemTime(m) => "System time error: "@ + m@,
        AstudiosError::PrerequisiteNotMet(m) => "Prerequisite not met: "@ + m@,
        AstudiosError::InsufficientResources(m) => "Insufficient resources: "@ + m@,
        AstudiosError::PermissionDenied(m) => "Permission denied: "@ + m@,
        AstudiosError::NetworkUnavailable(m) => "Network unavailable: "@ + m@,
        AstudiosError::AmbiguousMatch(c) => "Multiple installed versions match; candidates:"@
            + candidate_lines(c@.map_values(|i: InstalledAndroidStudio| i@)),
    }
}

impl AstudiosError {
    /// Render the user-facing message of this error.
    pub fn message(&self) -> (r: String)
        ensures
            r@ == message_spec(*self),
    {
        match self {
            AstudiosError::Io(m) => String::from_str("IO error: ").concat(m.as_str()),
            AstudiosError::Network(m) => String::from_str("Network error: ").concat(m.as_str()),
            AstudiosError::Parse(m) => String::from_str("Parse error: ").concat(m.as_str()),
            AstudiosError::Config(m) => String::from_str("Configuration error: ").concat(
                m.as_str(),
            ),
            AstudiosError::VersionNotFound(m) => String::from_str("Version '").concat(
                m.as_str(),
            ).concat("' not found. Use 'astudios list' to see available versions."),
            AstudiosError::Platform(m) => String::from_str("Platform error: ").concat(m.as_str()),
            AstudiosError::Download(m) => String::from_str("Download error: ").concat(m.as_str()),
            AstudiosError::Installation(m) => String::from_str("Installation error: ").concat(
                m.as_str(),
            ),
            AstudiosError::Extraction(m) => String::from_str("Extraction error: ").concat(
                m.as_str(),
            ),
            AstudiosError::DownloaderNotFound(m) => String::from_str("Downloader not found: ")
                .concat(m.as_str()),
            AstudiosError::Path(m) => String::from_str("Path error: ").concat(m.as_str()),
            AstudiosError::Cache(m) => String::from_str("Cache error: ").concat(m.as_str()),
            AstudiosError::General(m) => String::from_str("Error: ").concat(m.as_str()),
            AstudiosError::Utf8(m) => String::from_str("UTF-8 error: ").concat(m.as_str()),
            AstudiosError::Zip(m) => String::from_str("ZIP error: ").concat(m.as_str()),
            AstudiosError::SystemTime(m) => String::from_str("System time error: ").concat(
                m.as_str(),
            ),
            AstudiosError::PrerequisiteNotMet(m) => String::from_str("Prerequisite not met: ")
                .concat(m.as_str()),
            AstudiosError::InsufficientResources(m) => String::from_str(
                "Insufficient resources: ",
            ).concat(m.as_str()),
            AstudiosError::PermissionDenied(m) => String::from_str("Permission denied: ").concat(
                m.as_str(),
            ),
            AstudiosError::NetworkUnavailable(m) => String::from_str("Network unavailable: ")
                .concat(m.as_str()),
            AstudiosError::AmbiguousMatch(c) => {
                let mut acc = String::from_str("Multiple installed versions match; candidates:");
                let n = c.len();
                let mut i: usize = 0;
                while i < n
                    invariant
                        n == c@.len(),
                        i <= n,
                        acc@ == "Multiple installed versions match; candidates:"@
                            + candidate_lines(
                            c@.map_values(|inst: InstalledAndroidStudio| inst@).take(i as int),
                        ),
                    decreases n - i,
                {
                    let entry = &c[i];
                    acc = acc.concat("\n  - ").concat(entry.version.product_name.as_str()).concat(
                        " ",
                    ).concat(entry.version.short_version.as_str()).concat(" | Build: ").concat(
                        entry.version.build_version.as_str(),
                    ).concat(" | Path: ").concat(entry.path.as_str());
                    proof {
                        let views = c@.map_values(|inst: InstalledAndroidStudio| inst@);
                        assert(views.take(i + 1).drop_last() =~= views.take(i as int));
                        assert(views.take(i + 1).last() == views[i as int]);
                    }
                    i += 1;
                }
                proof {
                    let views = c@.map_values(|inst: InstalledAndroidStudio| inst@);
                    assert(views.take(n as int) =~= views);
                }
                acc
            },
        }
    }
}

} // verus!
