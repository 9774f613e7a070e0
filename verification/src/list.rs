//! The release catalog and its queries: latest release and pre-release,
//! channel filtering, and the deterministic multi-stage resolution of a
//! free-form version query to exactly one release.

use vstd::prelude::*;
use crate::error::AstudiosError;
use crate::model::{AndroidStudio, AndroidStudioReleasesList, ReleasesListView, StudioView};
use crate::search::{first_index_where, lemma_first_index_where, lemma_first_index_where_unique};
use crate::text::{
    contains_seq, lower_of, lowercase, split_whitespace_tokens, str_contains, str_eq, tokens_of,
};

verus! {

/// The views of a sequence of releases.
pub open spec fn studio_views(items: Seq<AndroidStudio>) -> Seq<StudioView> {
    items.map_values(|s: AndroidStudio| s@)
}

/// The text that the catch-all stage searches: version, channel and build
/// identifier, separated by single spaces.
pub open spec fn catch_all_text(s: StudioView) -> Seq<char> {
    s.version + " "@ + s.channel + " "@ + s.build
}

/// Whether release `s` matches query `q` at the given stage of the cascade.
///
/// The stages, in priority order: exact version match; case-insensitive
/// substring of the version; of the display name; of the build identifier;
/// a structured two-token query of a version substring and a channel name;
/// and a case-insensitive catch-all over version, channel and build.
pub open spec fn stage_match(s: StudioView, q: Seq<char>, stage: int) -> bool {
    if stage == 1 {
        s.version == q
    } else if stage == 2 {
        contains_seq(lower_of(s.version), lower_of(q))
    } else if stage == 3 {
        contains_seq(lower_of(s.name), lower_of(q))
    } else if stage == 4 {
        contains_seq(lower_of(s.build), lower_of(q))
    } else if stage == 5 {
        &&& tokens_of(q).len() >= 2
        &&& contains_seq(s.version, tokens_of(q)[0])
        &&& lower_of(tokens_of(q)[1]) == lower_of(s.channel)
    } else if stage == 6 {
        contains_seq(lower_of(catch_all_text(s)), lower_of(q))
    } else {
        false
    }
}

/// The stage predicate as a value, to pin the first-match search down.
pub open spec fn stage_pred(q: Seq<char>, stage: int) -> spec_fn(StudioView) -> bool {
    |s: StudioView| stage_match(s, q, stage)
}

/// The first catalog index matching `q` at `stage`, if any.
pub open spec fn stage_first(items: Seq<StudioView>, q: Seq<char>, stage: int) -> Option<int> {
    first_index_where(items, stage_pred(q, stage))
}

/// The resolution of query `q` against the catalog: the first stage with any
/// match, paired with the first index matching at that stage; `None` when no
/// stage matches any entry.
pub open spec fn find_spec(items: Seq<StudioView>, q: Seq<char>) -> Option<(int, int)> {
    if stage_first(items, q, 1) is Some {
        Option::Some((1int, stage_first(items, q, 1)->Some_0))
    } else if stage_first(items, q, 2) is Some {
        Option::Some((2int, stage_first(items, q, 2)->Some_0))
    } else if stage_first(items, q, 3) is Some {
        Option::Some((3int, stage_first(items, q, 3)->Some_0))
    } else if stage_first(items, q, 4) is Some {
        Option::Some((4int, stage_first(items, q, 4)->Some_0))
    } else if stage_first(items, q, 5) is Some {
        Option::Some((5int, stage_first(items, q, 5)->Some_0))
    } else if stage_first(items, q, 6) is Some {
        Option::Some((6int, stage_first(items, q, 6)->Some_0))
    } else {
        Option::None
    }
}

/// A release on the stable channel.
pub open spec fn release_pred() -> spec_fn(StudioView) -> bool {
    |s: StudioView| s.channel == "Release"@
}

/// A release on one of the pre-release channels.
pub open spec fn prerelease_pred() -> spec_fn(StudioView) -> bool {
    |s: StudioView| s.channel == "Beta"@ || s.channel == "Canary"@
}

/// The retain-predicate of `filter_by_channel`: every active flag must be
/// satisfied, so several flags compose as a conjunction.
pub open spec fn channel_keep_pred(
    release_only: bool,
    beta_only: bool,
    canary_only: bool,
) -> spec_fn(StudioView) -> bool {
    |s: StudioView|
        {
            &&& (release_only ==> s.channel == "Release"@)
            &&& (beta_only ==> s.channel == "Beta"@)
            &&& (canary_only ==> s.channel == "Canary"@)
        }
}

/// Queries over a parsed release catalog.
pub struct AndroidStudioLister {
    /// The catalog that queries run against, in feed order.
    pub releases: AndroidStudioReleasesList,
}

impl View for AndroidStudioLister {
    type V = ReleasesListView;

    open spec fn view(&self) -> ReleasesListView {
        self.releases@
    }
}

fn scan_exact(items: &Vec<AndroidStudio>, query: &str) -> (r: Option<usize>)
    ensures
        match r {
            Option::Some(i) => i < items@.len() && stage_first(
                studio_views(items@),
                query@,
                1,
            ) == Option::Some(i as int),
            Option::None => stage_first(studio_views(items@), query@, 1) is None,
        },
{
    let ghost pred = stage_pred(query@, 1);
    let n = items.len();
    let mut i: usize = 0;
    while i < n
        invariant
            n == items@.len(),
            i <= n,
            pred == stage_pred(query@, 1),
            forall|j: int| 0 <= j < i ==> !pred(studio_views(items@)[j]),
        decreases n - i,
    {
        if str_eq(items[i].version.as_str(), query) {
            proof {
                lemma_first_index_where_unique(studio_views(items@), pred, i as int);
            }
            return Some(i);
        }
        i += 1;
    }
    proof {
        lemma_first_index_where(studio_views(items@), pred);
    }
    None
}

fn scan_version_substring(items: &Vec<AndroidStudio>, query: &str) -> (r: Option<usize>)
    ensures
        match r {
            Option::Some(i) => i < items@.len() && stage_first(
                studio_views(items@),
                query@,
                2,
            ) == Option::Some(i as int),
            Option::None => stage_first(studio_views(items@), query@, 2) is None,
        },
{
    let ghost pred = stage_pred(query@, 2);
    let lower_query = lowercase(query);
    let n = items.len();
    let mut i: usize = 0;
    while i < n
        invariant
            n == items@.len(),
            i <= n,
            pred == stage_pred(query@, 2),
            lower_query@ == lower_of(query@),
            forall|j: int| 0 <= j < i ==> !pred(studio_views(items@)[j]),
        decreases n - i,
    {
        let lower_version = lowercase(items[i].version.as_str());
        if str_contains(lower_version.as_str(), lower_query.as_str()) {
            proof {
                lemma_first_index_where_unique(studio_views(items@), pred, i as int);
            }
            return Some(i);
        }
        i += 1;
    }
    proof {
        lemma_first_index_where(studio_views(items@), pred);
    }
    None
}

fn scan_name_substring(items: &Vec<AndroidStudio>, query: &str) -> (r: Option<usize>)
    ensures
        match r {
            Option::Some(i) => i < items@.len() && stage_first(
                studio_views(items@),
                query@,
                3,
            ) == Option::Some(i as int),
            Option::None => stage_first(studio_views(items@), query@, 3) is None,
        },
{
    let ghost pred = stage_pred(query@, 3);
    let lower_query = lowercase(query);
    let n = items.len();
    let mut i: usize = 0;
    while i < n
        invariant
            n == items@.len(),
            i <= n,
            pred == stage_pred(query@, 3),
            lower_query@ == lower_of(query@),
            forall|j: int| 0 <= j < i ==> !pred(studio_views(items@)[j]),
        decreases n - i,
    {
        let lower_name = lowercase(items[i].name.as_str());
        if str_contains(lower_name.as_str(), lower_query.as_str()) {
            proof {
                lemma_first_index_where_unique(studio_views(items@), pred, i as int);
            }
            return Some(i);
        }
        i += 1;
    }
    proof {
        lemma_first_index_where(studio_views(items@), pred);
    }
    None
}

fn scan_build_substring(items: &Vec<AndroidStudio>, query: &str) -> (r: Option<usize>)
    ensures
        match r {
            Option::Some(i) => i < items@.len() && stage_first(
                studio_views(items@),
                query@,
                4,
            ) == Option::Some(i as int),
            Option::None => stage_first(studio_views(items@), query@, 4) is None,
        },
{
    let ghost pred = stage_pred(query@, 4);
    let lower_query = lowercase(query);
    let n = items.len();
    let mut i: usize = 0;
    while i < n
        invariant
            n == items@.len(),
            i <= n,
            pred == stage_pred(query@, 4),
            lower_query@ == lower_of(query@),
            forall|j: int| 0 <= j < i ==> !pred(studio_views(items@)[j]),
        decreases n - i,
    {
        let lower_build = lowercase(items[i].build.as_str());
        if str_contains(lower_build.as_str(), lower_query.as_str()) {
            proof {
                lemma_first_index_where_unique(studio_views(items@), pred, i as int);
            }
            return Some(i);
        }
        i += 1;
    }
    proof {
        lemma_first_index_where(studio_views(items@), pred);
    }
    None
}

fn scan_channel_query(items: &Vec<AndroidStudio>, query: &str) -> (r: Option<usize>)
    ensures
        match r {
            Option::Some(i) => i < items@.len() && stage_first(
                studio_views(items@),
                query@,
                5,
            ) == Option::Some(i as int),
            Option::None => stage_first(studio_views(items@), query@, 5) is None,
        },
{
    let ghost pred = stage_pred(query@, 5);
    let tokens = split_whitespace_tokens(query);
    if tokens.len() < 2 {
        proof {
            lemma_first_index_where(studio_views(items@), pred);
            if stage_first(studio_views(items@), query@, 5) is Some {
                let w = first_index_where(studio_views(items@), pred)->Some_0;
                assert(pred(studio_views(items@)[w]));
            }
        }
        return None;
    }
    let version_part: &String = &tokens[0];
    let lower_channel_part = lowercase(tokens[1].as_str());
    let n = items.len();
    let mut i: usize = 0;
    while i < n
        invariant
            n == items@.len(),
            i <= n,
            pred == stage_pred(query@, 5),
            tokens_of(query@).len() >= 2,
            version_part@ == tokens_of(query@)[0],
            lower_channel_part@ == lower_of(tokens_of(query@)[1]),
            forall|j: int| 0 <= j < i ==> !pred(studio_views(items@)[j]),
        decreases n - i,
    {
        let lower_channel = lowercase(items[i].channel.as_str());
        if str_contains(items[i].version.as_str(), version_part.as_str()) && str_eq(
            lower_channel_part.as_str(),
            lower_channel.as_str(),
        ) {
            proof {
                lemma_first_index_where_unique(studio_views(items@), pred, i as int);
            }
            return Some(i);
        }
        i += 1;
    }
    proof {
        lemma_first_index_where(studio_views(items@), pred);
    }
    None
}

fn scan_catch_all(items: &Vec<AndroidStudio>, query: &str) -> (r: Option<usize>)
    ensures
        match r {
            Option::Some(i) => i < items@.len() && stage_first(
                studio_views(items@),
                query@,
                6,
            ) == Option::Some(i as int),
            Option::None => stage_first(studio_views(items@), query@, 6) is None,
        },
{
    let ghost pred = stage_pred(query@, 6);
    let lower_query = lowercase(query);
    let n = items.len();
    let mut i: usize = 0;
    while i < n
        invariant
            n == items@.len(),
            i <= n,
            pred == stage_pred(query@, 6),
            lower_query@ == lower_of(query@),
            forall|j: int| 0 <= j < i ==> !pred(studio_views(items@)[j]),
        decreases n - i,
    {
        let combined = items[i].version.clone().concat(" ").concat(
            items[i].channel.as_str(),
        ).concat(" ").concat(items[i].build.as_str());
        let lower_combined = lowercase(combined.as_str());
        if str_contains(lower_combined.as_str(), lower_query.as_str()) {
            proof {
                lemma_first_index_where_unique(studio_views(items@), pred, i as int);
            }
            return Some(i);
        }
        i += 1;
    }
    proof {
        lemma_first_index_where(studio_views(items@), pred);
    }
    None
}

impl AndroidStudioLister {
    /// Create a lister over an already parsed catalog.
    pub fn new(releases: AndroidStudioReleasesList) -> (r: Self)
        ensures
            r@ == releases@,
    {
        AndroidStudioLister { releases }
    }

    /// The catalog that this lister queries.
    pub fn get_releases(&self) -> (r: &AndroidStudioReleasesList)
        ensures
            r@ == self@,
    {
        &self.releases
    }

    /// The latest stable release: the first catalog entry, in feed order, on
    /// the "Release" channel.
    pub fn get_latest_release(&self) -> (r: Result<AndroidStudio, AstudiosError>)
        ensures
            match r {
                Result::Ok(item) => {
                    &&& first_index_where(self@.items, release_pred()) is Some
                    &&& item@ == self@.items[first_index_where(
                        self@.items,
                        release_pred(),
                    )->Some_0]
                },
                Result::Err(e) => {
                    &&& first_index_where(self@.items, release_pred()) is None
                    &&& e matches AstudiosError::VersionNotFound(m) && m@
                        == "No release versions available"@
                },
            },
    {
        let ghost pred = release_pred();
        let n = self.releases.items.len();
        let mut i: usize = 0;
        while i < n
            invariant
                n == self.releases.items@.len(),
                i <= n,
                pred == release_pred(),
                forall|j: int| 0 <= j < i ==> !pred(self@.items[j]),
            decreases n - i,
        {
            if self.releases.items[i].is_release() {
                proof {
                    lemma_first_index_where_unique(self@.items, pred, i as int);
                }
                return Ok(self.releases.items[i].clone());
            }
            i += 1;
        }
        proof {
            lemma_first_index_where(self@.items, pred);
        }
        Err(AstudiosError::VersionNotFound(String::from_str("No release versions available")))
    }

    /// The latest pre-release: the first catalog entry, in feed order, on
    /// the "Beta" or "Canary" channel.
    pub fn get_latest_prerelease(&self) -> (r: Result<AndroidStudio, AstudiosError>)
        ensures
            match r {
                Result::Ok(item) => {
                    &&& first_index_where(self@.items, prerelease_pred()) is Some
                    &&& item@ == self@.items[first_index_where(
                        self@.items,
                        prerelease_pred(),
                    )->Some_0]
                },
                Result::Err(e) => {
                    &&& first_index_where(self@.items, prerelease_pred()) is None
                    &&& e matches AstudiosError::VersionNotFound(m) && m@
                        == "No pre-release versions available"@
                },
            },
    {
        let ghost pred = prerelease_pred();
        let n = self.releases.items.len();
        let mut i: usize = 0;
        while i < n
            invariant
                n == self.releases.items@.len(),
                i <= n,
                pred == prerelease_pred(),
                forall|j: int| 0 <= j < i ==> !pred(self@.items[j]),
            decreases n - i,
        {
            if self.releases.items[i].is_beta() || self.releases.items[i].is_canary() {
                proof {
                    lemma_first_index_where_unique(self@.items, pred, i as int);
                }
                return Ok(self.releases.items[i].clone());
            }
            i += 1;
        }
        proof {
            lemma_first_index_where(self@.items, pred);
        }
        Err(AstudiosError::VersionNotFound(String::from_str("No pre-release versions available")))
    }

    /// Resolve a free-form query to exactly one release, by the fixed
    /// cascade of `find_spec`: the first stage with any match wins, and
    /// within it the first matching entry in feed order.
    pub fn find_version_by_query(&self, query: &str) -> (r: Result<AndroidStudio, AstudiosError>)
        ensures
            match r {
                Result::Ok(item) => {
                    &&& find_spec(self@.items, query@) is Some
                    &&& item@ == self@.items[find_spec(self@.items, query@)->Some_0.1]
                },
                Result::Err(e) => {
                    &&& find_spec(self@.items, query@) is None
                    &&& e matches AstudiosError::VersionNotFound(m) && m@ == query@
                },
            },
    {
        let items = &self.releases.items;
        proof {
            assert(studio_views(items@) =~= self@.items);
        }
        if let Some(i) = scan_exact(items, query) {
            return Ok(items[i].clone());
        }
        if let Some(i) = scan_version_substring(items, query) {
            return Ok(items[i].clone());
        }
        if let Some(i) = scan_name_substring(items, query) {
            return Ok(items[i].clone());
        }
        if let Some(i) = scan_build_substring(items, query) {
            return Ok(items[i].clone());
        }
        if let Some(i) = scan_channel_query(items, query) {
            return Ok(items[i].clone());
        }
        if let Some(i) = scan_catch_all(items, query) {
            return Ok(items[i].clone());
        }
        Err(AstudiosError::VersionNotFound(String::from_str(query)))
    }

    /// Find a release by the structured two-token channel query alone.
    pub fn find_by_channel_query(&self, items: &Vec<AndroidStudio>, query: &str) -> (r: Result<
        AndroidStudio,
        AstudiosError,
    >)
        ensures
            match r {
                Result::Ok(item) => {
                    &&& stage_first(studio_views(items@), query@, 5) is Some
                    &&& item@ == studio_views(items@)[stage_first(
                        studio_views(items@),
                        query@,
                        5,
                    )->Some_0]
                },
                Result::Err(e) => {
                    &&& stage_first(studio_views(items@), query@, 5) is None
                    &&& e matches AstudiosError::VersionNotFound(m) && m@ == query@
                },
            },
    {
        if let Some(i) = scan_channel_query(items, query) {
            return Ok(items[i].clone());
        }
        Err(AstudiosError::VersionNotFound(String::from_str(query)))
    }

    /// Filter releases by channel flags. Each flag is applied independently
    /// as a retain-predicate, so two or more flags compose as a conjunction.
    pub fn filter_by_channel(
        &self,
        releases: AndroidStudioReleasesList,
        release_only: bool,
        beta_only: bool,
        canary_only: bool,
    ) -> (r: Vec<AndroidStudio>)
        ensures
            studio_views(r@) == releases@.items.filter(
                channel_keep_pred(release_only, beta_only, canary_only),
            ),
    {
        let ghost pred = channel_keep_pred(release_only, beta_only, canary_only);
        let mut out: Vec<AndroidStudio> = Vec::new();
        let n = releases.items.len();
        let mut i: usize = 0;
        proof {
            reveal(Seq::filter);
            assert(releases@.items.take(0) =~= Seq::<StudioView>::empty());
        }
        while i < n
            invariant
                n == releases.items@.len(),
                i <= n,
                pred == channel_keep_pred(release_only, beta_only, canary_only),
                studio_views(out@) == releases@.items.take(i as int).filter(pred),
            decreases n - i,
        {
            let item = &releases.items[i];
            let keep = (!release_only || item.is_release()) && (!beta_only || item.is_beta()) && (
            !canary_only || item.is_canary());
            proof {
                reveal(Seq::filter);
                assert(releases@.items.take(i + 1).drop_last() =~= releases@.items.take(i as int));
                assert(releases@.items.take(i + 1).last() == releases@.items[i as int]);
                assert(keep == pred(releases@.items[i as int]));
            }
            if keep {
                out.push(item.clone());
                proof {
                    assert(studio_views(out@) =~= releases@.items.take(i + 1).filter(pred));
                }
            }
            i += 1;
        }
        proof {
            assert(releases@.items.take(n as int) =~= releases@.items);
        }
        out
    }
}

/// Resolution is deterministic: when `find_spec` picks a stage and an index,
/// that entry matches at that stage, no earlier entry matches at that stage,
/// and no stage of higher priority matches any entry; when it picks nothing,
/// no stage matches any entry.
pub proof fn lemma_find_first_match(items: Seq<StudioView>, q: Seq<char>)
    ensures
        match find_spec(items, q) {
            Option::Some(si) => {
                &&& 1 <= si.0 <= 6
                &&& 0 <= si.1 < items.len()
                &&& stage_match(items[si.1], q, si.0)
                &&& forall|j: int| 0 <= j < si.1 ==> !stage_match(items[j], q, si.0)
                &&& forall|t: int, i: int|
                    1 <= t < si.0 && 0 <= i < items.len() ==> !stage_match(items[i], q, t)
            },
            Option::None => forall|t: int, i: int|
                1 <= t <= 6 && 0 <= i < items.len() ==> !stage_match(items[i], q, t),
        },
{
    lemma_first_index_where(items, stage_pred(q, 1));
    lemma_first_index_where(items, stage_pred(q, 2));
    lemma_first_index_where(items, stage_pred(q, 3));
    lemma_first_index_where(items, stage_pred(q, 4));
    lemma_first_index_where(items, stage_pred(q, 5));
    lemma_first_index_where(items, stage_pred(q, 6));
    match find_spec(items, q) {
        Option::Some(si) => {
            assert forall|j: int| 0 <= j < si.1 implies !stage_match(items[j], q, si.0) by {
                assert(!stage_pred(q, si.0)(items[j]));
            }
            assert forall|t: int, i: int|
                1 <= t < si.0 && 0 <= i < items.len() implies !stage_match(items[i], q, t) by {
                assert(stage_first(items, q, t) is None);
                assert(!stage_pred(q, t)(items[i]));
            }
        },
        Option::None => {
            assert forall|t: int, i: int|
                1 <= t <= 6 && 0 <= i < items.len() implies !stage_match(items[i], q, t) by {
                assert(stage_first(items, q, t) is None);
                assert(!stage_pred(q, t)(items[i]));
            }
        },
    }
}

/// An exact version match always takes precedence over any substring match:
/// if some entry's version equals the query exactly, resolution lands at the
/// exact-match stage, on the first such entry.
pub proof fn lemma_exact_match_precedence(items: Seq<StudioView>, q: Seq<char>, w: int)
    requires
        0 <= w < items.len(),
        items[w].version == q,
    ensures
        find_spec(items, q) is Some,
        find_spec(items, q)->Some_0.0 == 1,
        items[find_spec(items, q)->Some_0.1].version == q,
        forall|j: int| 0 <= j < find_spec(items, q)->Some_0.1 ==> items[j].version != q,
{
    lemma_first_index_where(items, stage_pred(q, 1));
    if stage_first(items, q, 1) is None {
        assert(!stage_pred(q, 1)(items[w]));
    }
    let idx = stage_first(items, q, 1)->Some_0;
    assert(stage_pred(q, 1)(items[idx]));
    assert forall|j: int| 0 <= j < idx implies items[j].version != q by {
        assert(!stage_pred(q, 1)(items[j]));
    }
}

/// Two or more channel flags at once leave nothing: the retain-predicates
/// compose as a conjunction, and no entry's channel can equal two distinct
/// channel names.
pub proof fn lemma_multi_flag_filter_empty(
    items: Seq<StudioView>,
    release_only: bool,
    beta_only: bool,
    canary_only: bool,
)
    requires
        (release_only && beta_only) || (release_only && canary_only) || (beta_only && canary_only),
    ensures
        items.filter(channel_keep_pred(release_only, beta_only, canary_only)) == Seq::<
            StudioView,
        >::empty(),
    decreases items.len(),
{
    reveal(Seq::filter);
    reveal_strlit("Release");
    reveal_strlit("Beta");
    reveal_strlit("Canary");
    let pred = channel_keep_pred(release_only, beta_only, canary_only);
    if items.len() == 0 {
        assert(items.filter(pred) =~= Seq::<StudioView>::empty());
    } else {
        lemma_multi_flag_filter_empty(items.drop_last(), release_only, beta_only, canary_only);
        assert("Release"@.len() != "Beta"@.len());
        assert("Release"@.len() != "Canary"@.len());
        assert("Beta"@.len() != "Canary"@.len());
        assert(!pred(items.last()));
    }
}

} // verus!
