//! Reconciliation of catalog releases against installed versions: the
//! loose multi-field equality heuristic behind "is this installed" and
//! "is this active".

use vstd::prelude::*;
use crate::model::{AndroidStudio, InstalledAndroidStudio, InstalledView, StudioView};
use crate::text::str_eq;

verus! {

/// The matching heuristic between a catalog release and an installed
/// version: they correspond when the release's version equals the
/// installation's short version, or the release's build identifier equals
/// the installation's build version or its build number. Vendors do not
/// guarantee which field aligns, so this three-way disjunction deliberately
/// trades false positives for coverage.
pub open spec fn release_matches_installed(s: StudioView, v: InstalledView) -> bool {
    ||| s.version == v.version.short_version
    ||| s.build == v.version.build_version
    ||| s.build == v.version.build_number
}

/// Whether a catalog release corresponds to one installed version, by the
/// three-way matching heuristic.
pub fn matches_installed(release: &AndroidStudio, installed: &InstalledAndroidStudio) -> (r: bool)
    ensures
        r == release_matches_installed(release@, installed@),
{
    str_eq(release.version.as_str(), installed.version.short_version.as_str()) || str_eq(
        release.build.as_str(),
        installed.version.build_version.as_str(),
    ) || str_eq(release.build.as_str(), installed.version.build_number.as_str())
}

/// Whether a catalog release corresponds to any of the installed versions.
pub fn is_installed(release: &AndroidStudio, installations: &Vec<InstalledAndroidStudio>) -> (r:
    bool)
    ensures
        r == exists|i: int|
            0 <= i < installations@.len() && release_matches_installed(
                release@,
                #[trigger] installations@[i]@,
            ),
{
    let n = installations.len();
    let mut i: usize = 0;
    while i < n
        invariant
            n == installations@.len(),
            i <= n,
            forall|j: int|
                0 <= j < i ==> !release_matches_installed(
                    release@,
                    #[trigger] installations@[j]@,
                ),
        decreases n - i,
    {
        if matches_installed(release, &installations[i]) {
            return true;
        }
        i += 1;
    }
    false
}

/// Whether a catalog release corresponds to the currently active
/// installation, if there is one.
pub fn is_active(release: &AndroidStudio, active: &Option<InstalledAndroidStudio>) -> (r: bool)
    ensures
        r == match *active {
            Option::Some(a) => release_matches_installed(release@, a@),
            Option::None => false,
        },
{
    match active {
        Option::Some(a) => matches_installed(release, a),
        Option::None => false,
    }
}

} // verus!
