//! First-match search over sequences: the spec-level notion of "the first
//! element satisfying a predicate", shared by the catalog queries and the
//! installed-version resolution.

use vstd::prelude::*;

verus! {

/// Index of the first element of `s` satisfying `p`, if any.
pub open spec fn first_index_where<A>(s: Seq<A>, p: spec_fn(A) -> bool) -> Option<int>
    decreases s.len(),
{
    if s.len() == 0 {
        None
    } else if p(s[0]) {
        Some(0int)
    } else {
        match first_index_where(s.drop_first(), p) {
            Option::None => Option::<int>::None,
            Option::Some(i) => Option::Some(i + 1),
        }
    }
}

/// What `first_index_where` returns: the witness it points at satisfies `p`,
/// nothing before it does, and `None` means nothing does at all.
pub proof fn lemma_first_index_where<A>(s: Seq<A>, p: spec_fn(A) -> bool)
    ensures
        match first_index_where(s, p) {
            Option::Some(i) => 0 <= i < s.len() && p(s[i]) && forall|j: int|
                0 <= j < i ==> !p(s[j]),
            Option::None => forall|j: int| 0 <= j < s.len() ==> !p(s[j]),
        },
    decreases s.len(),
{
    if s.len() > 0 && !p(s[0]) {
        lemma_first_index_where(s.drop_first(), p);
        match first_index_where(s.drop_first(), p) {
            Option::Some(i) => {
                assert(s.drop_first()[i] == s[i + 1]);
                assert forall|j: int| 0 <= j < i + 1 implies !p(s[j]) by {
                    if j > 0 {
                        assert(!p(s.drop_first()[j - 1]));
                    }
                }
            },
            Option::None => {
                assert forall|j: int| 0 <= j < s.len() implies !p(s[j]) by {
                    if j > 0 {
                        assert(!p(s.drop_first()[j - 1]));
                    }
                }
            },
        }
    }
}

/// `first_index_where` is pinned down by any index that satisfies `p` with
/// nothing before it.
pub proof fn lemma_first_index_where_unique<A>(s: Seq<A>, p: spec_fn(A) -> bool, i: int)
    requires
        0 <= i < s.len(),
        p(s[i]),
        forall|j: int| 0 <= j < i ==> !p(s[j]),
    ensures
        first_index_where(s, p) == Option::Some(i),
{
    lemma_first_index_where(s, p);
    match first_index_where(s, p) {
        Option::Some(k) => {
            if k < i {
                assert(!p(s[k]));
            }
            if i < k {
                assert(!p(s[i]));
            }
        },
        Option::None => {
            assert(!p(s[i]));
        },
    }
}

} // verus!
