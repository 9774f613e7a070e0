//! Installation management logic: the total order over installed versions,
//! newest-first sorting, the directory-scan reconciliation, and the
//! resolution of switch and uninstall identifiers against what is
//! installed.

use vstd::prelude::*;
use crate::error::AstudiosError;
use crate::installed::{try_read_spec, BundleProbe, BundleProbeView, InstalledVersionReader, ReadOutcome};
use crate::model::{InstalledAndroidStudio, InstalledView, VersionView};
use crate::text::{
    contains_seq, ends_with_seq, file_name_component, file_name_in_path, lemma_seq_char_lt_asymmetric,
    lemma_seq_char_lt_transitive, seq_char_lt, starts_with_seq, str_contains, str_ends_with, str_eq,
    str_lt,
};

verus! {

/// The views of a sequence of installations.
pub open spec fn installed_views(s: Seq<InstalledAndroidStudio>) -> Seq<InstalledView> {
    s.map_values(|x: InstalledAndroidStudio| x@)
}

/// The strict order over version identities: lexicographic over the fields
/// in declaration order, each field compared as a character sequence. The
/// short version "2025.9" thereby orders after "2025.10", character-wise,
/// which the sorting deliberately adopts.
pub open spec fn version_lt(a: VersionView, b: VersionView) -> bool {
    if a.short_version != b.short_version {
        seq_char_lt(a.short_version, b.short_version)
    } else if a.build_version != b.build_version {
        seq_char_lt(a.build_version, b.build_version)
    } else if a.product_code != b.product_code {
        seq_char_lt(a.product_code, b.product_code)
    } else if a.build_number != b.build_number {
        seq_char_lt(a.build_number, b.build_number)
    } else {
        seq_char_lt(a.product_name, b.product_name)
    }
}

pub proof fn lemma_version_lt_asymmetric(a: VersionView, b: VersionView)
    ensures
        !(version_lt(a, b) && version_lt(b, a)),
{
    lemma_seq_char_lt_asymmetric(a.short_version, b.short_version);
    lemma_seq_char_lt_asymmetric(a.build_version, b.build_version);
    lemma_seq_char_lt_asymmetric(a.product_code, b.product_code);
    lemma_seq_char_lt_asymmetric(a.build_number, b.build_number);
    lemma_seq_char_lt_asymmetric(a.product_name, b.product_name);
}

pub proof fn lemma_version_lt_transitive(a: VersionView, b: VersionView, c: VersionView)
    ensures
        version_lt(a, b) && version_lt(b, c) ==> version_lt(a, c),
{
    lemma_seq_char_lt_transitive(a.short_version, b.short_version, c.short_version);
    lemma_seq_char_lt_transitive(a.build_version, b.build_version, c.build_version);
    lemma_seq_char_lt_transitive(a.product_code, b.product_code, c.product_code);
    lemma_seq_char_lt_transitive(a.build_number, b.build_number, c.build_number);
    lemma_seq_char_lt_transitive(a.product_name, b.product_name, c.product_name);
    lemma_seq_char_lt_asymmetric(a.short_version, b.short_version);
    lemma_seq_char_lt_asymmetric(a.build_version, b.build_version);
    lemma_seq_char_lt_asymmetric(a.product_code, b.product_code);
    lemma_seq_char_lt_asymmetric(a.build_number, b.build_number);
}

/// Descending order: no later entry is newer than an earlier one.
pub open spec fn sorted_desc(s: Seq<InstalledView>) -> bool {
    forall|i: int, j: int|
        0 <= i < j < s.len() ==> !version_lt(#[trigger] s[i].version, #[trigger] s[j].version)
}

proof fn lemma_move_element_multiset(s: Seq<InstalledView>, i: int, p: int)
    requires
        0 <= i < s.len(),
        0 <= p <= s.len() - 1,
    ensures
        s.remove(i).insert(p, s[i]).to_multiset() == s.to_multiset(),
{
    broadcast use vstd::seq_lib::group_to_multiset_ensures;
    broadcast use vstd::multiset::group_multiset_axioms;

    let m = s.to_multiset();
    assert(s.remove(i).to_multiset() =~= m.remove(s[i]));
    assert(s.remove(i).insert(p, s[i]).to_multiset() =~= m.remove(s[i]).insert(s[i]));
    assert(s.to_multiset().contains(s[i]));
    assert forall|w: InstalledView| m.remove(s[i]).insert(s[i]).count(w) == m.count(w) by {
    }
    assert(m.remove(s[i]).insert(s[i]) =~= m);
}

/// Sort installations newest-first by the version order.
pub fn sort_installed_desc(installations: Vec<InstalledAndroidStudio>) -> (r: Vec<
    InstalledAndroidStudio,
>)
    ensures
        r@.len() == installations@.len(),
        installed_views(r@).to_multiset() == installed_views(installations@).to_multiset(),
        sorted_desc(installed_views(r@)),
{
    let mut out = installations;
    let n = out.len();
    if n == 0 {
        return out;
    }
    let ghost orig = installed_views(out@);
    let mut i: usize = 1;
    while i < n
        invariant
            n == out@.len(),
            1 <= i <= n,
            installed_views(out@).to_multiset() == orig.to_multiset(),
            sorted_desc(installed_views(out@).take(i as int)),
        decreases n - i,
    {
        let mut p: usize = 0;
        while p < i && !version_lt_cmp(&out[p].version, &out[i].version)
            invariant
                p <= i,
                i < n,
                n == out@.len(),
                forall|q: int|
                    0 <= q < p ==> !version_lt(
                        #[trigger] out@[q]@.version,
                        out@[i as int]@.version,
                    ),
            decreases i - p,
        {
            p += 1;
        }
        let ghost old_seq = installed_views(out@);
        let item = out.remove(i);
        out.insert(p, item);
        proof {
            let new_seq = installed_views(out@);
            assert(new_seq =~= old_seq.remove(i as int).insert(p as int, old_seq[i as int]));
            lemma_move_element_multiset(old_seq, i as int, p as int);
            let key = old_seq[i as int];
            assert forall|x: int, y: int| 0 <= x < y < i + 1 implies !version_lt(
                new_seq[x].version,
                new_seq[y].version,
            ) by {
                if y < p as int {
                    assert(new_seq[x] == old_seq[x]);
                    assert(new_seq[y] == old_seq[y]);
                } else if y == p as int {
                    assert(new_seq[x] == old_seq[x]);
                    assert(new_seq[y] == key);
                } else if y <= i {
                    // the entries that the key moved past
                    assert(new_seq[y] == old_seq[y - 1]);
                    if x < p as int {
                        assert(new_seq[x] == old_seq[x]);
                    } else if x == p as int {
                        assert(new_seq[x] == key);
                        assert(p < i);
                        assert(version_lt(old_seq[p as int].version, key.version));
                        if y - 1 == p as int {
                            lemma_version_lt_asymmetric(key.version, old_seq[p as int].version);
                        } else {
                            assert(old_seq.take(i as int)[p as int] == old_seq[p as int]);
                            assert(old_seq.take(i as int)[y - 1] == old_seq[y - 1]);
                            assert(!version_lt(
                                old_seq[p as int].version,
                                old_seq[y - 1].version,
                            ));
                            if version_lt(key.version, old_seq[y - 1].version) {
                                lemma_version_lt_transitive(
                                    old_seq[p as int].version,
                                    key.version,
                                    old_seq[y - 1].version,
                                );
                            }
                        }
                    } else {
                        assert(new_seq[x] == old_seq[x - 1]);
                    }
                }
            }
        }
        i += 1;
    }
    proof {
        assert(installed_views(out@).take(n as int) =~= installed_views(out@));
    }
    out
}

/// What a directory scan observed about one entry of the applications
/// directory: whether the entry is a symlink, and the probe of its metadata.
pub struct ScanEntry {
    /// Whether the directory entry is a symlink; the alias of the active
    /// version is skipped to avoid double counting.
    pub is_symlink: bool,
    /// The metadata probe of the candidate bundle.
    pub probe: BundleProbe,
}

/// Mathematical image of a `ScanEntry`.
pub struct ScanEntryView {
    pub is_symlink: bool,
    pub probe: BundleProbeView,
}

impl View for ScanEntry {
    type V = ScanEntryView;

    open spec fn view(&self) -> ScanEntryView {
        ScanEntryView { is_symlink: self.is_symlink, probe: self.probe@ }
    }
}

/// The views of a sequence of scan entries.
pub open spec fn scan_entry_views(s: Seq<ScanEntry>) -> Seq<ScanEntryView> {
    s.map_values(|e: ScanEntry| e@)
}

/// A scanned entry that counts as an installation: named like one of this
/// product's bundles, not a symlink, and carrying readable, complete
/// metadata.
pub open spec fn scan_keeps(e: ScanEntryView) -> bool {
    &&& contains_seq(file_name_in_path(e.probe.path), "Android Studio"@)
    &&& ends_with_seq(file_name_in_path(e.probe.path), ".app"@)
    &&& !e.is_symlink
    &&& try_read_spec(e.probe) is Installed
}

/// The keep-predicate as a value, to pin the filtering down.
pub open spec fn scan_keeps_pred() -> spec_fn(ScanEntryView) -> bool {
    |e: ScanEntryView| scan_keeps(e)
}

/// The installation that a kept scan entry describes.
pub open spec fn installed_of_entry(e: ScanEntryView) -> InstalledView {
    InstalledView { path: e.probe.path, version: try_read_spec(e.probe)->Installed_0 }
}

/// The installations that a scan finds, in scan order, one unreadable or
/// foreign candidate never affecting the others.
pub open spec fn scan_results(entries: Seq<ScanEntryView>) -> Seq<InstalledView> {
    entries.filter(scan_keeps_pred()).map_values(|e: ScanEntryView| installed_of_entry(e))
}

/// An installed version matches a user-supplied identifier when the
/// identifier equals its short version or its build version, equals or
/// prefixes the catalog's version for its build, or prefixes its short
/// version.
pub open spec fn identifier_matches(v: InstalledView, api: Option<Seq<char>>, q: Seq<char>) -> bool {
    ||| v.version.short_version == q
    ||| v.version.build_version == q
    ||| api == Option::Some(q)
    ||| starts_with_seq(v.version.short_version, q)
    ||| (api is Some && starts_with_seq(api->Some_0, q))
}

/// The views of a sequence of optional catalog versions.
pub open spec fn api_views(apis: Seq<Option<String>>) -> Seq<Option<Seq<char>>> {
    apis.map_values(|o: Option<String>| crate::model::option_str_view(o))
}

/// The installed versions matching an identifier, in order.
pub open spec fn matching_installed(
    installs: Seq<InstalledView>,
    apis: Seq<Option<Seq<char>>>,
    q: Seq<char>,
) -> Seq<InstalledView>
    decreases installs.len(),
{
    if installs.len() == 0 || apis.len() != installs.len() {
        Seq::empty()
    } else {
        let rest = matching_installed(installs.drop_last(), apis.drop_last(), q);
        if identifier_matches(installs.last(), apis.last(), q) {
            rest.push(installs.last())
        } else {
            rest
        }
    }
}

/// Archive formats that installation handles.
#[derive(Debug, Clone, Copy)]
pub enum ArchiveType {
    Dmg,
    Unsupported,
}

/// Decision logic of the installation manager: scanning, ordering, and the
/// resolution of version identifiers against installed bundles.
pub struct Installer {
    /// Directory that downloads and extractions are kept under.
    pub install_dir: String,
    /// Directory that application bundles are installed into.
    pub applications_dir: String,
}

impl Installer {
    /// Create an installer over the given directories.
    pub fn with_directories(install_dir: String, applications_dir: String) -> (r: Self)
        ensures
            r.install_dir@ == install_dir@,
            r.applications_dir@ == applications_dir@,
    {
        Installer { install_dir, applications_dir }
    }

    /// Detect the archive type of a downloaded artifact from its file name.
    pub fn detect_archive_type(&self, path: &str) -> (r: ArchiveType)
        ensures
            r == (if ends_with_seq(file_name_in_path(path@), ".dmg"@) {
                ArchiveType::Dmg
            } else {
                ArchiveType::Unsupported
            }),
    {
        let file_name = file_name_component(path);
        if str_ends_with(file_name, ".dmg") {
            ArchiveType::Dmg
        } else {
            ArchiveType::Unsupported
        }
    }

    /// All installations that a directory scan found, sorted newest first.
    /// A candidate that is a symlink, is named unlike this product's
    /// bundles, or fails metadata extraction is skipped without affecting
    /// the rest.
    pub fn list_installed_studios(&self, entries: &Vec<ScanEntry>) -> (r: Vec<
        InstalledAndroidStudio,
    >)
        ensures
            sorted_desc(installed_views(r@)),
            installed_views(r@).to_multiset() == scan_results(
                scan_entry_views(entries@),
            ).to_multiset(),
    {
        let ghost evs = scan_entry_views(entries@);
        let mut found: Vec<InstalledAndroidStudio> = Vec::new();
        let n = entries.len();
        let mut i: usize = 0;
        proof {
            reveal(Seq::filter);
            assert(evs.take(0) =~= Seq::<ScanEntryView>::empty());
            assert(installed_views(found@) =~= scan_results(evs.take(0)));
        }
        while i < n
            invariant
                n == entries@.len(),
                i <= n,
                evs == scan_entry_views(entries@),
                installed_views(found@) == scan_results(evs.take(i as int)),
            decreases n - i,
        {
            let entry = &entries[i];
            let name = file_name_component(entry.probe.path.as_str());
            let keep_name = str_contains(name, "Android Studio") && str_ends_with(name, ".app");
            proof {
                reveal(Seq::filter);
                assert(evs.take(i + 1).drop_last() =~= evs.take(i as int));
                assert(evs.take(i + 1).last() == evs[i as int]);
            }
            if keep_name && !entry.is_symlink {
                match InstalledVersionReader::try_read(&entry.probe) {
                    Result::Ok(Option::Some(inst)) => {
                        proof {
                            assert(evs[i as int] == entries@[i as int]@);
                            assert(scan_keeps(evs[i as int]));
                            assert(inst@ == installed_of_entry(evs[i as int]));
                        }
                        let ghost prev = found@;
                        let ghost new_inst = inst@;
                        found.push(inst);
                        proof {
                            reveal(Seq::filter);
                            assert(scan_keeps_pred()(evs[i as int]));
                            let ft0 = evs.take(i as int).filter(scan_keeps_pred());
                            let ft1 = evs.take(i + 1).filter(scan_keeps_pred());
                            assert(ft1 == ft0.push(evs[i as int]));
                            assert(installed_views(prev) == scan_results(evs.take(i as int)));
                            assert(installed_views(prev).len() == prev.len());
                            assert(scan_results(evs.take(i as int)).len() == ft0.len());
                            assert(ft0.len() == prev.len());
                            assert(ft1.len() == ft0.len() + 1);
                            assert(found@ == prev.push(found@[prev.len() as int]));
                            assert(found@.len() == prev.len() + 1);
                            assert forall|k: int|
                                0 <= k < found@.len() implies installed_views(found@)[k]
                                == scan_results(evs.take(i + 1))[k] by {
                                assert(installed_views(found@)[k] == found@[k]@);
                                assert(scan_results(evs.take(i + 1))[k] == installed_of_entry(
                                    ft1[k],
                                ));
                                if k < prev.len() {
                                    assert(found@[k] == prev[k]);
                                    assert(ft1[k] == ft0[k]);
                                    assert(installed_views(prev)[k] == prev[k]@);
                                    assert(scan_results(evs.take(i as int))[k]
                                        == installed_of_entry(ft0[k]));
                                } else {
                                    assert(found@[k]@ == new_inst);
                                    assert(ft1[k] == evs[i as int]);
                                }
                            }
                            assert(installed_views(found@) =~= scan_results(evs.take(i + 1)));
                        }
                    },
                    _ => {
                        proof {
                            reveal(Seq::filter);
                            assert(!scan_keeps(evs[i as int]));
                            assert(installed_views(found@) =~= scan_results(evs.take(i + 1)));
                        }
                    },
                }
            } else {
                proof {
                    reveal(Seq::filter);
                    assert(!scan_keeps(evs[i as int]));
                    assert(installed_views(found@) =~= scan_results(evs.take(i + 1)));
                }
            }
            i += 1;
        }
        proof {
            assert(evs.take(n as int) =~= evs);
        }
        sort_installed_desc(found)
    }

    /// The short versions of the given installations, in order.
    pub fn list_installed_versions(&self, installations: &Vec<InstalledAndroidStudio>) -> (r: Vec<
        String,
    >)
        ensures
            r@.len() == installations@.len(),
            forall|i: int|
                0 <= i < r@.len() ==> r@[i]@ == installations@[i]@.version.short_version,
    {
        let mut out: Vec<String> = Vec::new();
        let n = installations.len();
        let mut i: usize = 0;
        while i < n
            invariant
                n == installations@.len(),
                i <= n,
                out@.len() == i,
                forall|j: int|
                    0 <= j < i ==> out@[j]@ == installations@[j]@.version.short_version,
            decreases n - i,
        {
            out.push(installations[i].version.short_version.clone());
            i += 1;
        }
        out
    }

    /// The short version of the active installation, if there is one.
    pub fn get_active_version(&self, active: &Option<InstalledAndroidStudio>) -> (r: Option<
        String,
    >)
        ensures
            match r {
                Option::Some(v) => active matches Option::Some(a) && v@
                    == a@.version.short_version,
                Option::None => active is None,
            },
    {
        match active {
            Option::Some(a) => Some(a.version.short_version.clone()),
            Option::None => None,
        }
    }

    /// The installations matching an identifier, paired with their
    /// indices, in scan order.
    fn collect_matching(
        installations: &Vec<InstalledAndroidStudio>,
        api_versions: &Vec<Option<String>>,
        query: &str,
    ) -> (r: (Vec<InstalledAndroidStudio>, Vec<usize>))
        requires
            installations@.len() == api_versions@.len(),
        ensures
            installed_views(r.0@) == matching_installed(
                installed_views(installations@),
                api_views(api_versions@),
                query@,
            ),
            r.0@.len() == r.1@.len(),
            forall|k: int|
                0 <= k < r.1@.len() ==> #[trigger] r.1@[k] < installations@.len()
                    && installations@[r.1@[k] as int]@ == installed_views(r.0@)[k]
                    && identifier_matches(
                    installations@[r.1@[k] as int]@,
                    api_views(api_versions@)[r.1@[k] as int],
                    query@,
                ),
    {
        let ghost all_installs = installed_views(installations@);
        let ghost all_apis = api_views(api_versions@);
        let mut candidates: Vec<InstalledAndroidStudio> = Vec::new();
        let mut indices: Vec<usize> = Vec::new();
        let n = installations.len();
        let mut i: usize = 0;
        proof {
            assert(all_installs.take(0) =~= Seq::<InstalledView>::empty());
            assert(installed_views(candidates@) =~= matching_installed(
                all_installs.take(0),
                all_apis.take(0),
                query@,
            ));
        }
        while i < n
            invariant
                n == installations@.len(),
                n == api_versions@.len(),
                i <= n,
                all_installs == installed_views(installations@),
                all_apis == api_views(api_versions@),
                installed_views(candidates@) == matching_installed(
                    all_installs.take(i as int),
                    all_apis.take(i as int),
                    query@,
                ),
                candidates@.len() == indices@.len(),
                forall|k: int|
                    0 <= k < indices@.len() ==> #[trigger] indices@[k] < i
                        && installations@[indices@[k] as int]@ == installed_views(candidates@)[k]
                        && identifier_matches(
                        installations@[indices@[k] as int]@,
                        all_apis[indices@[k] as int],
                        query@,
                    ),
            decreases n - i,
        {
            proof {
                assert(all_installs.take(i + 1).drop_last() =~= all_installs.take(i as int));
                assert(all_apis.take(i + 1).drop_last() =~= all_apis.take(i as int));
                assert(all_installs.take(i + 1).last() == all_installs[i as int]);
                assert(all_apis.take(i + 1).last() == all_apis[i as int]);
            }
            if Self::matches_identifier(&installations[i], &api_versions[i], query) {
                candidates.push(installations[i].clone());
                indices.push(i);
                proof {
                    assert(installed_views(candidates@) =~= matching_installed(
                        all_installs.take(i + 1),
                        all_apis.take(i + 1),
                        query@,
                    ));
                }
            } else {
                proof {
                    assert(installed_views(candidates@) =~= matching_installed(
                        all_installs.take(i + 1),
                        all_apis.take(i + 1),
                        query@,
                    ));
                }
            }
            i += 1;
        }
        proof {
            assert(all_installs.take(n as int) =~= all_installs);
            assert(all_apis.take(n as int) =~= all_apis);
        }
        (candidates, indices)
    }

    /// Resolve a switch identifier to exactly one installation. When
    /// several match, the resolution fails closed with the full candidate
    /// list; it never guesses by picking the newest or the first.
    pub fn switch_to_studio(
        &self,
        installations: &Vec<InstalledAndroidStudio>,
        api_versions: &Vec<Option<String>>,
        identifier: &str,
    ) -> (r: Result<usize, AstudiosError>)
        requires
            installations@.len() == api_versions@.len(),
        ensures
            ({
                let found = matching_installed(
                    installed_views(installations@),
                    api_views(api_versions@),
                    identifier@,
                );
                match r {
                    Result::Ok(i) => {
                        &&& found.len() == 1
                        &&& i < installations@.len()
                        &&& installations@[i as int]@ == found[0]
                        &&& identifier_matches(
                            installations@[i as int]@,
                            api_views(api_versions@)[i as int],
                            identifier@,
                        )
                    },
                    Result::Err(e) => match e {
                        AstudiosError::VersionNotFound(m) => found.len() == 0 && m@
                            == identifier@,
                        AstudiosError::AmbiguousMatch(c) => found.len() >= 2 && installed_views(
                            c@,
                        ) == found,
                        _ => false,
                    },
                }
            }),
    {
        let (candidates, indices) = Self::collect_matching(
            installations,
            api_versions,
            identifier,
        );
        if candidates.len() == 0 {
            Err(AstudiosError::VersionNotFound(String::from_str(identifier)))
        } else if candidates.len() == 1 {
            Ok(indices[0])
        } else {
            Err(AstudiosError::AmbiguousMatch(candidates))
        }
    }

    /// Resolve a switch identifier to exactly one installation; fails
    /// closed when the identifier is ambiguous.
    pub fn switch_to_version(
        &self,
        installations: &Vec<InstalledAndroidStudio>,
        api_versions: &Vec<Option<String>>,
        version: &str,
    ) -> (r: Result<usize, AstudiosError>)
        requires
            installations@.len() == api_versions@.len(),
        ensures
            ({
                let found = matching_installed(
                    installed_views(installations@),
                    api_views(api_versions@),
                    version@,
                );
                match r {
                    Result::Ok(i) => {
                        &&& found.len() == 1
                        &&& i < installations@.len()
                        &&& installations@[i as int]@ == found[0]
                        &&& identifier_matches(
                            installations@[i as int]@,
                            api_views(api_versions@)[i as int],
                            version@,
                        )
                    },
                    Result::Err(e) => match e {
                        AstudiosError::VersionNotFound(m) => found.len() == 0 && m@ == version@,
                        AstudiosError::AmbiguousMatch(c) => found.len() >= 2 && installed_views(
                            c@,
                        ) == found,
                        _ => false,
                    },
                }
            }),
    {
        self.switch_to_studio(installations, api_versions, version)
    }

    /// Whether one installation matches a user-supplied identifier.
    fn matches_identifier(
        installation: &InstalledAndroidStudio,
        api_version: &Option<String>,
        q: &str,
    ) -> (r: bool)
        ensures
            r == identifier_matches(
                installation@,
                crate::model::option_str_view(*api_version),
                q@,
            ),
    {
        if str_eq(installation.version.short_version.as_str(), q) {
            return true;
        }
        if str_eq(installation.version.build_version.as_str(), q) {
            return true;
        }
        match api_version {
            Option::Some(v) => {
                if str_eq(v.as_str(), q) {
                    return true;
                }
                if crate::text::str_starts_with(v.as_str(), q) {
                    return true;
                }
            },
            Option::None => {},
        }
        crate::text::str_starts_with(installation.version.short_version.as_str(), q)
    }

    /// Resolve an uninstall identifier to exactly one installation. When
    /// several match, the resolution fails closed with the full candidate
    /// list; it never guesses.
    pub fn resolve_uninstall_target(
        &self,
        installations: &Vec<InstalledAndroidStudio>,
        api_versions: &Vec<Option<String>>,
        version: &str,
    ) -> (r: Result<usize, AstudiosError>)
        requires
            installations@.len() == api_versions@.len(),
        ensures
            ({
                let found = matching_installed(
                    installed_views(installations@),
                    api_views(api_versions@),
                    version@,
                );
                match r {
                    Result::Ok(i) => {
                        &&& found.len() == 1
                        &&& i < installations@.len()
                        &&& installations@[i as int]@ == found[0]
                        &&& identifier_matches(
                            installations@[i as int]@,
                            api_views(api_versions@)[i as int],
                            version@,
                        )
                    },
                    Result::Err(e) => match e {
                        AstudiosError::VersionNotFound(m) => found.len() == 0 && m@ == version@,
                        AstudiosError::AmbiguousMatch(c) => found.len() >= 2 && installed_views(
                            c@,
                        ) == found,
                        _ => false,
                    },
                }
            }),
    {
        let (candidates, indices) = Self::collect_matching(installations, api_versions, version);
        if candidates.len() == 0 {
            Err(AstudiosError::VersionNotFound(String::from_str(version)))
        } else if candidates.len() == 1 {
            Ok(indices[0])
        } else {
            Err(AstudiosError::AmbiguousMatch(candidates))
        }
    }
}

/// The strict order over version identities, executably.
pub fn version_lt_cmp(
    a: &crate::model::AndroidStudioVersion,
    b: &crate::model::AndroidStudioVersion,
) -> (r: bool)
    ensures
        r == version_lt(a@, b@),
{
    if !str_eq(a.short_version.as_str(), b.short_version.as_str()) {
        str_lt(a.short_version.as_str(), b.short_version.as_str())
    } else if !str_eq(a.build_version.as_str(), b.build_version.as_str()) {
        str_lt(a.build_version.as_str(), b.build_version.as_str())
    } else if !str_eq(a.product_code.as_str(), b.product_code.as_str()) {
        str_lt(a.product_code.as_str(), b.product_code.as_str())
    } else if !str_eq(a.build_number.as_str(), b.build_number.as_str()) {
        str_lt(a.build_number.as_str(), b.build_number.as_str())
    } else {
        str_lt(a.product_name.as_str(), b.product_name.as_str())
    }
}

} // verus!
