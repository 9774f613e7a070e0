//! Download method selection: the choice between the built-in HTTP client
//! and the aria2 external downloader, and its description.

use vstd::prelude::*;

verus! {

/// Supported download methods with different performance characteristics.
#[derive(Debug)]
pub enum Downloader {
    /// Built-in HTTP client.
    Reqwest,
    /// High-performance external downloader, with the path of its
    /// executable.
    Aria2(String),
}

impl Downloader {
    /// Pick the best available downloader: aria2 where its executable was
    /// found, the built-in client otherwise.
    pub fn detect_best(aria2_path: Option<String>) -> (r: Self)
        ensures
            match aria2_path {
                Option::Some(p) => r matches Downloader::Aria2(q) && q@ == p@,
                Option::None => r is Reqwest,
            },
    {
        match aria2_path {
            Option::Some(p) => Downloader::Aria2(p),
            Option::None => Downloader::Reqwest,
        }
    }

    /// A human-readable description of the downloader.
    pub fn description(&self) -> (r: String)
        ensures
            match self {
                Downloader::Reqwest => r@ == "reqwest (built-in HTTP client)"@,
                Downloader::Aria2(p) => r@ == "aria2 ("@ + p@ + ")"@,
            },
    {
        match self {
            Downloader::Reqwest => String::from_str("reqwest (built-in HTTP client)"),
            Downloader::Aria2(p) => String::from_str("aria2 (").concat(p.as_str()).concat(")"),
        }
    }
}

impl Default for Downloader {
    /// The probe-free fallback: the built-in HTTP client. Selection that
    /// probes for the aria2 executable goes through `detect_best`.
    fn default() -> (r: Self)
        ensures
            r is Reqwest,
    {
        Downloader::Reqwest
    }
}

} // verus!
