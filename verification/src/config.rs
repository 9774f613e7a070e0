//! Application-wide configuration values.

use vstd::prelude::*;

verus! {

/// Application configuration constants and utilities.
pub struct Config;

impl Config {
    /// Default cache expiration time: 24 hours, in seconds.
    pub const CACHE_DURATION_SECS: u64 = 60 * 60 * 24;

    /// Default network timeout for API requests, in seconds.
    pub const NETWORK_TIMEOUT_SECS: u64 = 30;

    /// Default download timeout, in seconds.
    pub const DOWNLOAD_TIMEOUT_SECS: u64 = 300;

    /// Maximum download retry attempts.
    pub const MAX_DOWNLOAD_RETRIES: u32 = 3;

    /// Retry wait time between download attempts, in seconds.
    pub const DOWNLOAD_RETRY_WAIT_SECS: u64 = 5;

    /// Number of parallel connections for aria2.
    pub const ARIA2_MAX_CONNECTIONS: u32 = 16;

    /// Minimum disk space required for an installation, in GB.
    pub const MIN_DISK_SPACE_GB: u64 = 8;

    /// Minimum RAM recommended, in GB.
    pub const MIN_RAM_GB: u64 = 8;

    /// Timeout for system detection checks, in seconds.
    pub const DETECTION_TIMEOUT_SECS: u64 = 10;

    /// Get minimum disk space requirement in GB.
    pub fn min_disk_space_gb() -> (r: u64)
        ensures
            r == Config::MIN_DISK_SPACE_GB,
    {
        Self::MIN_DISK_SPACE_GB
    }

    /// Get minimum RAM requirement in GB.
    pub fn min_ram_gb() -> (r: u64)
        ensures
            r == Config::MIN_RAM_GB,
    {
        Self::MIN_RAM_GB
    }

    /// Whether a cache file of the given age may still be reused.
    pub fn cache_is_fresh(age_secs: u64) -> (r: bool)
        ensures
            r == (age_secs < Config::CACHE_DURATION_SECS),
    {
        age_secs < Self::CACHE_DURATION_SECS
    }

    /// Default applications directory (macOS).
    pub fn default_applications_dir() -> (r: String)
        ensures
            r@ == "/Applications"@,
    {
        String::from_str("/Applications")
    }

    /// User agent string for HTTP requests.
    pub fn user_agent() -> (r: String)
        ensures
            r@ == "astudios/0.1.0"@,
    {
        String::from_str("astudios/0.1.0")
    }

    /// Common aria2 executable paths for macOS.
    pub fn aria2_search_paths() -> (r: Vec<String>)
        ensures
            r@.len() == 5,
            r@[0]@ == "/usr/local/bin/aria2c"@,
            r@[1]@ == "/opt/homebrew/bin/aria2c"@,
            r@[2]@ == "/usr/bin/aria2c"@,
            r@[3]@ == "/bin/aria2c"@,
            r@[4]@ == "aria2c"@,
    {
        let mut paths: Vec<String> = Vec::new();
        paths.push(String::from_str("/usr/local/bin/aria2c"));
        paths.push(String::from_str("/opt/homebrew/bin/aria2c"));
        paths.push(String::from_str("/usr/bin/aria2c"));
        paths.push(String::from_str("/bin/aria2c"));
        paths.push(String::from_str("aria2c"));
        paths
    }
}

} // verus!
