//! Pre-installation system checks: the decisions over what probing the
//! machine observed, with the exact issue and warning texts that each
//! finding produces.

use vstd::prelude::*;
use crate::config::Config;
use crate::text::{decimal_of, digits_val, is_numeric, lines_of, parse_u64_dec, split_lines,
    split_on, split_on_char, str_eq, tokens_of, split_whitespace_tokens, u64_to_dec};

verus! {

/// Results of the system detection checks.
#[derive(Debug)]
pub struct DetectionResult {
    pub platform_compatible: bool,
    pub disk_space_sufficient: bool,
    pub permissions_valid: bool,
    pub network_available: bool,
    pub dependencies_available: bool,
    pub java_runtime_available: bool,
    pub issues: Vec<String>,
    pub warnings: Vec<String>,
}

/// The views of a sequence of message strings.
pub open spec fn message_views(s: Seq<String>) -> Seq<Seq<char>> {
    s.map_values(|m: String| m@)
}

impl DetectionResult {
    /// A fresh result: nothing checked yet, no findings.
    pub fn new() -> (r: Self)
        ensures
            !r.platform_compatible,
            !r.disk_space_sufficient,
            !r.permissions_valid,
            !r.network_available,
            !r.dependencies_available,
            !r.java_runtime_available,
            r.issues@.len() == 0,
            r.warnings@.len() == 0,
    {
        DetectionResult {
            platform_compatible: false,
            disk_space_sufficient: false,
            permissions_valid: false,
            network_available: false,
            dependencies_available: false,
            java_runtime_available: false,
            issues: Vec::new(),
            warnings: Vec::new(),
        }
    }

    /// Whether the system meets the requirements; the Java runtime is
    /// recommended but not required.
    pub fn is_valid(&self) -> (r: bool)
        ensures
            r == (self.platform_compatible && self.disk_space_sufficient
                && self.permissions_valid && self.network_available
                && self.dependencies_available),
    {
        self.platform_compatible && self.disk_space_sufficient && self.permissions_valid
            && self.network_available && self.dependencies_available
    }

    /// Whether any warning was recorded.
    pub fn has_warnings(&self) -> (r: bool)
        ensures
            r == (self.warnings@.len() != 0),
    {
        self.warnings.len() != 0
    }

    /// Record an issue.
    pub fn add_issue(&mut self, issue: String)
        ensures
            final(self).issues@ == old(self).issues@.push(issue),
            final(self).warnings == old(self).warnings,
            final(self).platform_compatible == old(self).platform_compatible,
            final(self).disk_space_sufficient == old(self).disk_space_sufficient,
            final(self).permissions_valid == old(self).permissions_valid,
            final(self).network_available == old(self).network_available,
            final(self).dependencies_available == old(self).dependencies_available,
            final(self).java_runtime_available == old(self).java_runtime_available,
    {
        self.issues.push(issue);
    }

    /// Record a warning.
    pub fn add_warning(&mut self, warning: String)
        ensures
            final(self).warnings@ == old(self).warnings@.push(warning),
            final(self).issues == old(self).issues,
            final(self).platform_compatible == old(self).platform_compatible,
            final(self).disk_space_sufficient == old(self).disk_space_sufficient,
            final(self).permissions_valid == old(self).permissions_valid,
            final(self).network_available == old(self).network_available,
            final(self).dependencies_available == old(self).dependencies_available,
            final(self).java_runtime_available == old(self).java_runtime_available,
    {
        self.warnings.push(warning);
    }
}

impl Default for DetectionResult {
    /// A fresh result, exactly as `DetectionResult::new` gives it.
    fn default() -> (r: Self)
        ensures
            !r.platform_compatible,
            !r.disk_space_sufficient,
            !r.permissions_valid,
            !r.network_available,
            !r.dependencies_available,
            !r.java_runtime_available,
            r.issues@.len() == 0,
            r.warnings@.len() == 0,
    {
        DetectionResult::new()
    }
}

/// What the network probe observed: the feed endpoint answered with
/// success, answered with an error status, or could not be reached.
pub enum NetworkProbe {
    Reachable,
    HttpStatus(String),
    ConnectionFailed(String),
}

/// Everything that probing the machine observed, handed to the decision
/// logic as plain values.
pub struct SystemProbes {
    /// Operating system name, e.g. "macos".
    pub os: String,
    /// Architecture name, e.g. "aarch64".
    pub arch: String,
    /// The reported OS version, or `None` when it could not be determined.
    pub macos_version: Option<String>,
    /// The directory downloads are kept under.
    pub install_dir: String,
    /// The directory bundles are installed into.
    pub applications_dir: String,
    /// Available bytes under the install directory; `None` when the check
    /// failed.
    pub install_space: Option<u64>,
    /// Available bytes under the applications directory.
    pub applications_space: Option<u64>,
    /// Whether the install directory is writable.
    pub install_writable: bool,
    /// Whether the applications directory is writable.
    pub applications_writable: bool,
    /// What the network probe observed.
    pub network: NetworkProbe,
    /// Availability of each required tool, aligned with
    /// `SystemDetector::get_required_tools`.
    pub tools_available: Vec<bool>,
    /// Whether the aria2 downloader is available.
    pub aria2_available: bool,
    /// Whether a Java runtime is available.
    pub java_available: bool,
}

/// An OS version below the supported floor of 10.14: it splits on dots
/// into at least two numeric parts, and the leading two order below 10.14.
pub open spec fn macos_version_unsupported(v: Seq<char>) -> bool {
    let parts = split_on(v, '.');
    &&& parts.len() >= 2
    &&& is_numeric(parts[0]) && digits_val(parts[0]) <= u64::MAX
    &&& is_numeric(parts[1]) && digits_val(parts[1]) <= u64::MAX
    &&& (digits_val(parts[0]) < 10 || (digits_val(parts[0]) == 10 && digits_val(parts[1]) < 14))
}

/// Whether an OS version string passes the version floor; a version that
/// cannot be read as two leading numbers passes.
pub fn macos_version_ok(version: &str) -> (r: bool)
    ensures
        r == !macos_version_unsupported(version@),
{
    let parts = split_on_char(version, '.');
    if parts.len() < 2 {
        return true;
    }
    let major = parse_u64_dec(parts[0].as_str());
    let minor = parse_u64_dec(parts[1].as_str());
    match (major, minor) {
        (Option::Some(maj), Option::Some(min)) => !(maj < 10 || (maj == 10 && min < 14)),
        _ => true,
    }
}

/// One gibibyte.
pub open spec fn gib() -> nat {
    0x40000000
}

/// A byte count rendered in whole and tenth gibibytes, truncated.
pub open spec fn gb_text(space: nat) -> Seq<char> {
    decimal_of(space / gib()) + "."@ + decimal_of(space % gib() * 10 / gib())
}

/// Render a byte count in gibibytes with one (truncated) decimal.
pub fn render_gb(space: u64) -> (r: String)
    ensures
        r@ == gb_text(space as nat),
{
    let whole = space / 0x40000000u64;
    let rem = space % 0x40000000u64;
    let tenths = rem * 10 / 0x40000000u64;
    u64_to_dec(whole).concat(".").concat(u64_to_dec(tenths).as_str())
}

/// The platform issue texts.
pub open spec fn os_issue(os: Seq<char>) -> Seq<char> {
    "Unsupported operating system: "@ + os + ". This tool only supports macOS."@
}

pub open spec fn arch_issue(arch: Seq<char>) -> Seq<char> {
    "Unsupported architecture: "@ + arch + ". Android Studio requires x86_64 or aarch64 on macOS."@
}

pub open spec fn version_issue(v: Seq<char>) -> Seq<char> {
    "macOS version "@ + v
        + " is not supported. Android Studio requires macOS 10.14 or later."@
}

/// The supported architectures.
pub open spec fn arch_ok(arch: Seq<char>) -> bool {
    arch == "x86_64"@ || arch == "aarch64"@
}

/// Whether the platform passes: a supported OS and architecture, and no
/// determined version below the floor.
pub open spec fn platform_ok(p: SystemProbes) -> bool {
    &&& p.os@ == "macos"@
    &&& arch_ok(p.arch@)
    &&& match p.macos_version {
        Option::Some(v) => !macos_version_unsupported(v@),
        Option::None => true,
    }
}

/// The issues of the platform check, at most one, in check order.
pub open spec fn platform_issues(p: SystemProbes) -> Seq<Seq<char>> {
    if p.os@ != "macos"@ {
        seq![os_issue(p.os@)]
    } else if !arch_ok(p.arch@) {
        seq![arch_issue(p.arch@)]
    } else {
        match p.macos_version {
            Option::Some(v) => if macos_version_unsupported(v@) {
                seq![version_issue(v@)]
            } else {
                Seq::empty()
            },
            Option::None => Seq::empty(),
        }
    }
}

/// The warnings of the platform check: an undeterminable version, on an
/// otherwise supported platform.
pub open spec fn platform_warnings(p: SystemProbes) -> Seq<Seq<char>> {
    if p.os@ == "macos"@ && arch_ok(p.arch@) && p.macos_version is None {
        seq!["Could not determine macOS version"@]
    } else {
        Seq::empty()
    }
}

/// The required free space, in bytes.
pub open spec fn required_space() -> nat {
    Config::MIN_DISK_SPACE_GB as nat * gib()
}

/// The disk-space issue text for one directory.
pub open spec fn space_issue(dir: Seq<char>, space: nat) -> Seq<char> {
    "Insufficient disk space in "@ + dir + ". Required: "@ + decimal_of(
        Config::MIN_DISK_SPACE_GB as nat,
    ) + " GB, Available: "@ + gb_text(space) + " GB"@
}

/// A space probe that came back too low.
pub open spec fn space_low(space: Option<u64>) -> bool {
    space matches Option::Some(v) && (v as nat) < required_space()
}

/// Whether the two directories are checked separately.
pub open spec fn dirs_differ(p: SystemProbes) -> bool {
    p.install_dir@ != p.applications_dir@
}

/// Whether the disk-space check passes: no probed directory is low.
pub open spec fn disk_ok(p: SystemProbes) -> bool {
    &&& !space_low(p.install_space)
    &&& !(dirs_differ(p) && space_low(p.applications_space))
}

/// The issues of the disk-space check, in check order.
pub open spec fn disk_issues(p: SystemProbes) -> Seq<Seq<char>> {
    let first = if space_low(p.install_space) {
        seq![space_issue(p.install_dir@, p.install_space->Some_0 as nat)]
    } else {
        Seq::empty()
    };
    let second = if dirs_differ(p) && space_low(p.applications_space) {
        seq![space_issue(p.applications_dir@, p.applications_space->Some_0 as nat)]
    } else {
        Seq::empty()
    };
    first + second
}

/// The warnings of the disk-space check: a failed probe, with no low
/// probe beside it.
pub open spec fn disk_warnings(p: SystemProbes) -> Seq<Seq<char>> {
    if (p.install_space is None || (dirs_differ(p) && p.applications_space is None)) && disk_ok(
        p,
    ) {
        seq![
            "Could not verify available disk space. Ensure you have sufficient space for installation."@,
        ]
    } else {
        Seq::empty()
    }
}

/// Whether both directories are writable.
pub open spec fn perms_ok(p: SystemProbes) -> bool {
    p.install_writable && p.applications_writable
}

/// The issues of the permissions check, in check order.
pub open spec fn perms_issues(p: SystemProbes) -> Seq<Seq<char>> {
    let first = if !p.install_writable {
        seq!["No write permission for install directory: "@ + p.install_dir@]
    } else {
        Seq::empty()
    };
    let second = if !p.applications_writable {
        seq![
            "No write permission for applications directory: "@ + p.applications_dir@
                + ". You may need administrator privileges."@,
        ]
    } else {
        Seq::empty()
    };
    first + second
}

/// Whether the feed endpoint answered with success.
pub open spec fn network_ok(p: SystemProbes) -> bool {
    p.network is Reachable
}

/// The issues of the network check.
pub open spec fn network_issues(p: SystemProbes) -> Seq<Seq<char>> {
    match p.network {
        NetworkProbe::Reachable => Seq::empty(),
        NetworkProbe::HttpStatus(st) => seq![
            "JetBrains API is not accessible (HTTP "@ + st@
                + "). Check your internet connection."@,
        ],
        NetworkProbe::ConnectionFailed(e) => seq![
            "Network connectivity check failed: "@ + e@
                + ". Check your internet connection and firewall settings."@,
        ],
    }
}

/// The missing-tool issue text.
pub open spec fn tool_issue(tool: Seq<char>) -> Seq<char> {
    "Required tool '"@ + tool + "' not found in PATH. Please install it and try again."@
}

/// Whether every required tool is available.
pub open spec fn deps_ok(p: SystemProbes) -> bool {
    &&& p.tools_available@[0]
    &&& p.tools_available@[1]
    &&& p.tools_available@[2]
    &&& p.tools_available@[3]
}

/// The issues of the dependency check: one per missing tool, in tool
/// order, and the archive-tool issue when the disk-image tool is missing.
pub open spec fn deps_issues(p: SystemProbes) -> Seq<Seq<char>> {
    let t0 = if !p.tools_available@[0] {
        seq![tool_issue("ditto"@)]
    } else {
        Seq::empty()
    };
    let t1 = if !p.tools_available@[1] {
        seq![tool_issue("rm"@)]
    } else {
        Seq::empty()
    };
    let t2 = if !p.tools_available@[2] {
        seq![tool_issue("hdiutil"@)]
    } else {
        Seq::empty()
    };
    let t3 = if !p.tools_available@[3] {
        seq![tool_issue("codesign"@)]
    } else {
        Seq::empty()
    };
    let archive = if !p.tools_available@[2] {
        seq!["hdiutil not found. This tool is required for extracting DMG files on macOS."@]
    } else {
        Seq::empty()
    };
    t0 + t1 + t2 + t3 + archive
}

/// The warnings of the dependency check: a missing optional downloader.
pub open spec fn deps_warnings(p: SystemProbes) -> Seq<Seq<char>> {
    if !p.aria2_available {
        seq![
            "aria2 not found. Downloads will use the built-in HTTP client, which may be slower. Install aria2 for faster downloads."@,
        ]
    } else {
        Seq::empty()
    }
}

/// The warnings of the Java check.
pub open spec fn java_warnings(p: SystemProbes) -> Seq<Seq<char>> {
    if !p.java_available {
        seq![
            "Java runtime not found. While Android Studio includes its own JDK, having Java installed system-wide is recommended for development."@,
        ]
    } else {
        Seq::empty()
    }
}

/// Every issue the checks produce, in check order.
pub open spec fn expected_issues(p: SystemProbes) -> Seq<Seq<char>> {
    platform_issues(p) + disk_issues(p) + perms_issues(p) + network_issues(p) + deps_issues(p)
}

/// Every warning the checks produce, in check order.
pub open spec fn expected_warnings(p: SystemProbes) -> Seq<Seq<char>> {
    platform_warnings(p) + disk_warnings(p) + deps_warnings(p) + java_warnings(p)
}

/// The check-outcome flags of two results agree.
pub open spec fn flags_unchanged(a: DetectionResult, b: DetectionResult) -> bool {
    &&& a.platform_compatible == b.platform_compatible
    &&& a.disk_space_sufficient == b.disk_space_sufficient
    &&& a.permissions_valid == b.permissions_valid
    &&& a.network_available == b.network_available
    &&& a.dependencies_available == b.dependencies_available
    &&& a.java_runtime_available == b.java_runtime_available
}

/// System detection and validation for pre-installation checks.
pub struct SystemDetector;

impl SystemDetector {
    /// The system tools that an installation relies on.
    pub fn get_required_tools() -> (r: Vec<String>)
        ensures
            r@.len() == 4,
            r@[0]@ == "ditto"@,
            r@[1]@ == "rm"@,
            r@[2]@ == "hdiutil"@,
            r@[3]@ == "codesign"@,
    {
        let mut tools: Vec<String> = Vec::new();
        tools.push(String::from_str("ditto"));
        tools.push(String::from_str("rm"));
        tools.push(String::from_str("hdiutil"));
        tools.push(String::from_str("codesign"));
        tools
    }

    /// The available space that a disk-usage report states: the fourth
    /// field of its second line, read as kilobytes.
    pub fn parse_df_available_bytes(output: &str) -> (r: Option<u64>)
        ensures
            match r {
                Option::Some(v) => {
                    &&& lines_of(output@).len() >= 2
                    &&& tokens_of(lines_of(output@)[1]).len() >= 4
                    &&& is_numeric(tokens_of(lines_of(output@)[1])[3])
                    &&& digits_val(tokens_of(lines_of(output@)[1])[3]) * 1024 <= u64::MAX
                    &&& v == digits_val(tokens_of(lines_of(output@)[1])[3]) * 1024
                },
                Option::None => {
                    ||| lines_of(output@).len() < 2
                    ||| tokens_of(lines_of(output@)[1]).len() < 4
                    ||| !is_numeric(tokens_of(lines_of(output@)[1])[3])
                    ||| digits_val(tokens_of(lines_of(output@)[1])[3]) * 1024 > u64::MAX
                },
            },
    {
        let lines = split_lines(output);
        if lines.len() < 2 {
            return None;
        }
        let fields = split_whitespace_tokens(lines[1].as_str());
        if fields.len() < 4 {
            return None;
        }
        match parse_u64_dec(fields[3].as_str()) {
            Option::Some(kb) => {
                if kb > u64::MAX / 1024 {
                    return None;
                }
                Some(kb * 1024)
            },
            Option::None => {
                proof {
                    assert(digits_val(tokens_of(lines_of(output@)[1])[3]) > u64::MAX ==> digits_val(
                        tokens_of(lines_of(output@)[1])[3],
                    ) * 1024 > u64::MAX) by (nonlinear_arith);
                }
                None
            },
        }
    }

    /// Decide the outcome of every pre-installation check from what
    /// probing observed, recording the issues and warnings in check order.
    pub fn detect_system_requirements(probes: &SystemProbes) -> (r: DetectionResult)
        requires
            probes.tools_available@.len() == 4,
        ensures
            r.platform_compatible == platform_ok(*probes),
            r.disk_space_sufficient == disk_ok(*probes),
            r.permissions_valid == perms_ok(*probes),
            r.network_available == network_ok(*probes),
            r.dependencies_available == deps_ok(*probes),
            r.java_runtime_available == probes.java_available,
            message_views(r.issues@) == expected_issues(*probes),
            message_views(r.warnings@) == expected_warnings(*probes),
    {
        let mut result = DetectionResult::new();
        let platform = Self::run_platform_check(probes, &mut result);
        result.platform_compatible = platform;
        let disk = Self::run_disk_check(probes, &mut result);
        result.disk_space_sufficient = disk;
        let perms = Self::run_permissions_check(probes, &mut result);
        result.permissions_valid = perms;
        let network = Self::run_network_check(probes, &mut result);
        result.network_available = network;
        let deps = Self::run_dependencies_check(probes, &mut result);
        result.dependencies_available = deps;
        if !probes.java_available {
            result.add_warning(
                String::from_str(
                    "Java runtime not found. While Android Studio includes its own JDK, having Java installed system-wide is recommended for development.",
                ),
            );
        }
        result.java_runtime_available = probes.java_available;
        proof {
            assert(message_views(result.issues@) =~= expected_issues(*probes));
            assert(message_views(result.warnings@) =~= expected_warnings(*probes));
        }
        result
    }

    fn run_platform_check(probes: &SystemProbes, result: &mut DetectionResult) -> (r: bool)
        ensures
            flags_unchanged(*old(result), *final(result)),
            r == platform_ok(*probes),
            message_views(final(result).issues@) == message_views(old(result).issues@)
                + platform_issues(*probes),
            message_views(final(result).warnings@) == message_views(old(result).warnings@)
                + platform_warnings(*probes),
    {
        let ok: bool;
        if !str_eq(probes.os.as_str(), "macos") {
            result.add_issue(
                String::from_str("Unsupported operating system: ").concat(
                    probes.os.as_str(),
                ).concat(". This tool only supports macOS."),
            );
            ok = false;
        } else if !(str_eq(probes.arch.as_str(), "x86_64") || str_eq(
            probes.arch.as_str(),
            "aarch64",
        )) {
            result.add_issue(
                String::from_str("Unsupported architecture: ").concat(probes.arch.as_str()).concat(
                    ". Android Studio requires x86_64 or aarch64 on macOS.",
                ),
            );
            ok = false;
        } else {
            match &probes.macos_version {
                Option::Some(v) => {
                    if !macos_version_ok(v.as_str()) {
                        result.add_issue(
                            String::from_str("macOS version ").concat(v.as_str()).concat(
                                " is not supported. Android Studio requires macOS 10.14 or later.",
                            ),
                        );
                        ok = false;
                    } else {
                        ok = true;
                    }
                },
                Option::None => {
                    result.add_warning(String::from_str("Could not determine macOS version"));
                    ok = true;
                },
            }
        }
        proof {
            assert(message_views(result.issues@) =~= message_views(old(result).issues@)
                + platform_issues(*probes));
            assert(message_views(result.warnings@) =~= message_views(old(result).warnings@)
                + platform_warnings(*probes));
        }
        ok
    }

    fn run_disk_check(probes: &SystemProbes, result: &mut DetectionResult) -> (r: bool)
        ensures
            flags_unchanged(*old(result), *final(result)),
            r == disk_ok(*probes),
            message_views(final(result).issues@) == message_views(old(result).issues@)
                + disk_issues(*probes),
            message_views(final(result).warnings@) == message_views(old(result).warnings@)
                + disk_warnings(*probes),
    {
        let dirs_same = str_eq(probes.install_dir.as_str(), probes.applications_dir.as_str());
        let mut insufficient = false;
        match probes.install_space {
            Option::Some(space) => {
                if space < 8 * 0x40000000u64 {
                    result.add_issue(Self::space_message(&probes.install_dir, space));
                    insufficient = true;
                }
            },
            Option::None => {},
        }
        if !dirs_same {
            match probes.applications_space {
                Option::Some(space) => {
                    if space < 8 * 0x40000000u64 {
                        result.add_issue(Self::space_message(&probes.applications_dir, space));
                        insufficient = true;
                    }
                },
                Option::None => {},
            }
        }
        let space_check_failed = probes.install_space.is_none() || (!dirs_same
            && probes.applications_space.is_none());
        if space_check_failed && !insufficient {
            result.add_warning(
                String::from_str(
                    "Could not verify available disk space. Ensure you have sufficient space for installation.",
                ),
            );
        }
        proof {
            assert(insufficient == !disk_ok(*probes));
            assert(message_views(result.issues@) =~= message_views(old(result).issues@)
                + disk_issues(*probes));
            assert(message_views(result.warnings@) =~= message_views(old(result).warnings@)
                + disk_warnings(*probes));
        }
        !insufficient
    }

    fn run_permissions_check(probes: &SystemProbes, result: &mut DetectionResult) -> (r: bool)
        ensures
            flags_unchanged(*old(result), *final(result)),
            r == perms_ok(*probes),
            message_views(final(result).issues@) == message_views(old(result).issues@)
                + perms_issues(*probes),
            final(result).warnings == old(result).warnings,
    {
        if !probes.install_writable {
            result.add_issue(
                String::from_str("No write permission for install directory: ").concat(
                    probes.install_dir.as_str(),
                ),
            );
        }
        if !probes.applications_writable {
            result.add_issue(
                String::from_str("No write permission for applications directory: ").concat(
                    probes.applications_dir.as_str(),
                ).concat(". You may need administrator privileges."),
            );
        }
        proof {
            assert(message_views(result.issues@) =~= message_views(old(result).issues@)
                + perms_issues(*probes));
        }
        probes.install_writable && probes.applications_writable
    }

    fn run_network_check(probes: &SystemProbes, result: &mut DetectionResult) -> (r: bool)
        ensures
            flags_unchanged(*old(result), *final(result)),
            r == network_ok(*probes),
            message_views(final(result).issues@) == message_views(old(result).issues@)
                + network_issues(*probes),
            final(result).warnings == old(result).warnings,
    {
        let ok: bool;
        match &probes.network {
            NetworkProbe::Reachable => {
                ok = true;
            },
            NetworkProbe::HttpStatus(st) => {
                result.add_issue(
                    String::from_str("JetBrains API is not accessible (HTTP ").concat(
                        st.as_str(),
                    ).concat("). Check your internet connection."),
                );
                ok = false;
            },
            NetworkProbe::ConnectionFailed(e) => {
                result.add_issue(
                    String::from_str("Network connectivity check failed: ").concat(
                        e.as_str(),
                    ).concat(". Check your internet connection and firewall settings."),
                );
                ok = false;
            },
        }
        proof {
            assert(message_views(result.issues@) =~= message_views(old(result).issues@)
                + network_issues(*probes));
        }
        ok
    }

    fn run_dependencies_check(probes: &SystemProbes, result: &mut DetectionResult) -> (r: bool)
        requires
            probes.tools_available@.len() == 4,
        ensures
            flags_unchanged(*old(result), *final(result)),
            r == deps_ok(*probes),
            message_views(final(result).issues@) == message_views(old(result).issues@)
                + deps_issues(*probes),
            message_views(final(result).warnings@) == message_views(old(result).warnings@)
                + deps_warnings(*probes),
    {
        if !probes.tools_available[0] {
            result.add_issue(Self::tool_message("ditto"));
        }
        if !probes.tools_available[1] {
            result.add_issue(Self::tool_message("rm"));
        }
        if !probes.tools_available[2] {
            result.add_issue(Self::tool_message("hdiutil"));
        }
        if !probes.tools_available[3] {
            result.add_issue(Self::tool_message("codesign"));
        }
        if !probes.tools_available[2] {
            result.add_issue(
                String::from_str(
                    "hdiutil not found. This tool is required for extracting DMG files on macOS.",
                ),
            );
        }
        if !probes.aria2_available {
            result.add_warning(
                String::from_str(
                    "aria2 not found. Downloads will use the built-in HTTP client, which may be slower. Install aria2 for faster downloads.",
                ),
            );
        }
        proof {
            assert(message_views(result.issues@) =~= message_views(old(result).issues@)
                + deps_issues(*probes));
            assert(message_views(result.warnings@) =~= message_views(old(result).warnings@)
                + deps_warnings(*probes));
        }
        probes.tools_available[0] && probes.tools_available[1] && probes.tools_available[2]
            && probes.tools_available[3]
    }

    /// The insufficient-space issue text for one directory.
    fn space_message(dir: &String, space: u64) -> (r: String)
        ensures
            r@ == space_issue(dir@, space as nat),
    {
        proof {
            assert(decimal_of(Config::MIN_DISK_SPACE_GB as nat) =~= decimal_of(8));
        }
        String::from_str("Insufficient disk space in ").concat(dir.as_str()).concat(
            ". Required: ",
        ).concat(u64_to_dec(8).as_str()).concat(" GB, Available: ").concat(
            render_gb(space).as_str(),
        ).concat(" GB")
    }

    /// The missing-tool issue text.
    fn tool_message(tool: &str) -> (r: String)
        ensures
            r@ == tool_issue(tool@),
    {
        String::from_str("Required tool '").concat(tool).concat(
            "' not found in PATH. Please install it and try again.",
        )
    }
}

} // verus!
