//! Verified text utilities: equality, substring search, prefix/suffix tests,
//! lexicographic comparison and whitespace tokenisation over `&str`, each
//! specified against the string's view as a `Seq<char>`.

use vstd::prelude::*;

verus! {

/// `n` occurs as a contiguous run of characters somewhere in `h`.
pub open spec fn contains_seq(h: Seq<char>, n: Seq<char>) -> bool {
    exists|i: int| 0 <= i && i + n.len() <= h.len() && #[trigger] h.subrange(i, i + n.len()) == n
}

/// `p` is a prefix of `h`.
pub open spec fn starts_with_seq(h: Seq<char>, p: Seq<char>) -> bool {
    p.len() <= h.len() && h.subrange(0, p.len() as int) == p
}

/// `s` is a suffix of `h`.
pub open spec fn ends_with_seq(h: Seq<char>, s: Seq<char>) -> bool {
    s.len() <= h.len() && h.subrange(h.len() - s.len(), h.len() as int) == s
}

/// The sequence of characters that `str::to_lowercase` produces for `s`.
pub uninterp spec fn lower_of(s: Seq<char>) -> Seq<char>;

/// Relies on str::to_lowercase: the result depends on the characters alone.
#[verifier::external_body]
pub(crate) fn lowercase(s: &str) -> (r: String)
    ensures
        r@ == lower_of(s@),
{
    s.to_lowercase()
}

/// Whether the characters of `n` stand in `h` starting at position `off`.
pub fn matches_at(h: &str, n: &str, off: usize) -> (r: bool)
    requires
        off + n@.len() <= h@.len(),
    ensures
        r == (h@.subrange(off as int, off + n@.len()) == n@),
{
    let hl = h.unicode_len();
    let nl = n.unicode_len();
    let mut j: usize = 0;
    while j < nl
        invariant
            j <= nl,
            hl == h@.len(),
            nl == n@.len(),
            off + nl <= hl,
            forall|k: int| 0 <= k < j ==> h@[off + k] == n@[k],
        decreases nl - j,
    {
        if h.get_char(off + j) != n.get_char(j) {
            proof {
                assert(h@.subrange(off as int, off + n@.len()) != n@) by {
                    if h@.subrange(off as int, off + n@.len()) == n@ {
                        assert(h@.subrange(off as int, off + n@.len())[j as int] == n@[j as int]);
                    }
                }
            }
            return false;
        }
        j += 1;
    }
    proof {
        assert(h@.subrange(off as int, off + n@.len()) =~= n@);
    }
    true
}

/// Character-for-character equality of two string slices.
pub fn str_eq(a: &str, b: &str) -> (r: bool)
    ensures
        r == (a@ == b@),
{
    let la = a.unicode_len();
    let lb = b.unicode_len();
    if la != lb {
        return false;
    }
    let r = matches_at(a, b, 0);
    proof {
        assert(a@.subrange(0, a@.len() as int) =~= a@);
    }
    r
}

/// Substring search, specified as `contains_seq` on the views.
pub fn str_contains(h: &str, n: &str) -> (r: bool)
    ensures
        r == contains_seq(h@, n@),
{
    let hl = h.unicode_len();
    let nl = n.unicode_len();
    if nl > hl {
        return false;
    }
    let bound = hl - nl;
    let mut i: usize = 0;
    loop
        invariant
            hl == h@.len(),
            nl == n@.len(),
            nl <= hl,
            bound == hl - nl,
            i <= bound,
            forall|j: int| 0 <= j < i ==> #[trigger] h@.subrange(j, j + n@.len()) != n@,
        decreases bound - i,
    {
        if matches_at(h, n, i) {
            return true;
        }
        if i == bound {
            proof {
                assert forall|j: int| 0 <= j && j + n@.len() <= h@.len() implies #[trigger] h@
                    .subrange(j, j + n@.len()) != n@ by {
                    assert(j <= bound);
                }
            }
            return false;
        }
        i += 1;
    }
}

/// Strict lexicographic order on character sequences, comparing characters
/// by code point; the same order that byte-wise comparison of the UTF-8
/// encodings yields.
pub open spec fn seq_char_lt(a: Seq<char>, b: Seq<char>) -> bool
    decreases a.len(),
{
    if b.len() == 0 {
        false
    } else if a.len() == 0 {
        true
    } else if a[0] < b[0] {
        true
    } else if a[0] != b[0] {
        false
    } else {
        seq_char_lt(a.drop_first(), b.drop_first())
    }
}

pub proof fn lemma_seq_char_lt_asymmetric(a: Seq<char>, b: Seq<char>)
    ensures
        !(seq_char_lt(a, b) && seq_char_lt(b, a)),
    decreases a.len(),
{
    if a.len() > 0 && b.len() > 0 && a[0] == b[0] {
        lemma_seq_char_lt_asymmetric(a.drop_first(), b.drop_first());
    }
}

pub proof fn lemma_seq_char_lt_transitive(a: Seq<char>, b: Seq<char>, c: Seq<char>)
    ensures
        seq_char_lt(a, b) && seq_char_lt(b, c) ==> seq_char_lt(a, c),
    decreases a.len(),
{
    if a.len() > 0 && b.len() > 0 && c.len() > 0 && a[0] == b[0] && b[0] == c[0] {
        lemma_seq_char_lt_transitive(a.drop_first(), b.drop_first(), c.drop_first());
    }
}

/// Lexicographic comparison of two string slices.
pub fn str_lt(a: &str, b: &str) -> (r: bool)
    ensures
        r == seq_char_lt(a@, b@),
    decreases a@.len(),
{
    let la = a.unicode_len();
    let lb = b.unicode_len();
    if lb == 0 {
        false
    } else if la == 0 {
        true
    } else {
        let ca = a.get_char(0);
        let cb = b.get_char(0);
        if ca < cb {
            true
        } else if ca != cb {
            false
        } else {
            let ra = a.substring_char(1, la);
            let rb = b.substring_char(1, lb);
            proof {
                assert(ra@ =~= a@.drop_first());
                assert(rb@ =~= b@.drop_first());
            }
            str_lt(ra, rb)
        }
    }
}

/// Whitespace, for the purpose of splitting a query into tokens.
pub open spec fn is_space_char(c: char) -> bool {
    c == ' ' || c == '\t' || c == '\n' || c == '\r'
}

/// Length of the leading run of non-whitespace characters.
pub open spec fn leading_token_len(s: Seq<char>) -> nat
    decreases s.len(),
{
    if s.len() == 0 || is_space_char(s[0]) {
        0
    } else {
        1 + leading_token_len(s.drop_first())
    }
}

pub proof fn lemma_leading_token_len_le(s: Seq<char>)
    ensures
        leading_token_len(s) <= s.len(),
    decreases s.len(),
{
    if s.len() > 0 && !is_space_char(s[0]) {
        lemma_leading_token_len_le(s.drop_first());
    }
}

/// The whitespace-separated tokens of `s`, in order.
pub open spec fn tokens_of(s: Seq<char>) -> Seq<Seq<char>>
    decreases s.len(),
    via tokens_of_decreases
{
    if s.len() == 0 {
        Seq::empty()
    } else if is_space_char(s[0]) {
        tokens_of(s.drop_first())
    } else {
        seq![s.take(leading_token_len(s) as int)] + tokens_of(
            s.skip(leading_token_len(s) as int),
        )
    }
}

#[via_fn]
proof fn tokens_of_decreases(s: Seq<char>) {
    if s.len() > 0 && !is_space_char(s[0]) {
        lemma_leading_token_len_le(s);
        assert(leading_token_len(s) >= 1);
    }
}

proof fn lemma_leading_token_len_is_run(s: Seq<char>, k: int)
    requires
        0 <= k <= s.len(),
        forall|j: int| 0 <= j < k ==> !is_space_char(s[j]),
        k == s.len() || is_space_char(s[k]),
    ensures
        leading_token_len(s) == k,
    decreases k,
{
    if k > 0 {
        lemma_leading_token_len_is_run(s.drop_first(), k - 1);
    }
}

fn is_space_char_exec(c: char) -> (r: bool)
    ensures
        r == is_space_char(c),
{
    c == ' ' || c == '\t' || c == '\n' || c == '\r'
}

/// Split a string into its whitespace-separated tokens.
pub fn split_whitespace_tokens(s: &str) -> (r: Vec<String>)
    ensures
        r@.len() == tokens_of(s@).len(),
        forall|i: int| 0 <= i < r@.len() ==> r@[i]@ == tokens_of(s@)[i],
    decreases s@.len(),
{
    let l = s.unicode_len();
    if l == 0 {
        Vec::new()
    } else if is_space_char_exec(s.get_char(0)) {
        let rest = s.substring_char(1, l);
        proof {
            assert(rest@ =~= s@.drop_first());
        }
        split_whitespace_tokens(rest)
    } else {
        let mut k: usize = 1;
        while k < l && !is_space_char_exec(s.get_char(k))
            invariant
                1 <= k <= l,
                l == s@.len(),
                forall|j: int| 0 <= j < k ==> !is_space_char(s@[j]),
            decreases l - k,
        {
            k += 1;
        }
        proof {
            lemma_leading_token_len_is_run(s@, k as int);
        }
        let token = s.substring_char(0, k);
        let rest = s.substring_char(k, l);
        proof {
            assert(token@ =~= s@.take(leading_token_len(s@) as int));
            assert(rest@ =~= s@.skip(leading_token_len(s@) as int));
        }
        let tail_tokens = split_whitespace_tokens(rest);
        let mut out: Vec<String> = Vec::new();
        out.push(token.to_owned());
        let mut i: usize = 0;
        while i < tail_tokens.len()
            invariant
                i <= tail_tokens@.len(),
                out@.len() == 1 + i,
                out@[0]@ == tokens_of(s@)[0],
                tokens_of(s@).len() == 1 + tail_tokens@.len(),
                forall|j: int| 0 <= j < tail_tokens@.len() ==> tail_tokens@[j]@ == tokens_of(
                    s@,
                )[j + 1],
                forall|j: int| 1 <= j < out@.len() ==> out@[j]@ == tokens_of(s@)[j],
            decreases tail_tokens@.len() - i,
        {
            out.push(tail_tokens[i].clone());
            i += 1;
        }
        out
    }
}

/// The suffix of a path after its last `/`; empty when the path ends in `/`.
pub open spec fn file_name_in_path(s: Seq<char>) -> Seq<char>
    decreases s.len(),
{
    if s.len() == 0 {
        s
    } else if s.last() == '/' {
        Seq::empty()
    } else {
        file_name_in_path(s.drop_last()).push(s.last())
    }
}

proof fn lemma_file_name_suffix(s: Seq<char>, k: int)
    requires
        -1 <= k < s.len(),
        forall|j: int| k < j < s.len() ==> s[j] != '/',
        k == -1 || s[k] == '/',
    ensures
        file_name_in_path(s) == s.skip(k + 1),
    decreases s.len(),
{
    if s.len() == 0 {
        assert(s.skip(0) =~= s);
    } else if k == s.len() - 1 {
        assert(s.skip(k + 1) =~= Seq::<char>::empty());
    } else {
        lemma_file_name_suffix(s.drop_last(), k);
        assert(s.drop_last().skip(k + 1).push(s.last()) =~= s.skip(k + 1));
    }
}

/// The final component of a path: everything after the last `/`.
pub fn file_name_component<'a>(s: &'a str) -> (r: &'a str)
    ensures
        r@ == file_name_in_path(s@),
{
    let l = s.unicode_len();
    let mut k: usize = l;
    while k > 0 && s.get_char(k - 1) != '/'
        invariant
            k <= l,
            l == s@.len(),
            forall|j: int| k <= j < l ==> s@[j] != '/',
        decreases k,
    {
        k -= 1;
    }
    proof {
        lemma_file_name_suffix(s@, k - 1);
    }
    s.substring_char(k, l)
}

/// A decimal digit.
pub open spec fn is_digit(c: char) -> bool {
    '0' <= c && c <= '9'
}

/// Every character of `s` is a decimal digit.
pub open spec fn all_digits(s: Seq<char>) -> bool {
    forall|i: int| 0 <= i < s.len() ==> is_digit(#[trigger] s[i])
}

/// The numeric value of a digit character.
pub open spec fn digit_val(c: char) -> nat {
    ((c as int) - ('0' as int)) as nat
}

/// The value of a sequence of decimal digits.
pub open spec fn digits_val(s: Seq<char>) -> nat
    decreases s.len(),
{
    if s.len() == 0 {
        0
    } else {
        digits_val(s.drop_last()) * 10 + digit_val(s.last())
    }
}

/// A string that denotes a number: non-empty and all digits.
pub open spec fn is_numeric(s: Seq<char>) -> bool {
    s.len() > 0 && all_digits(s)
}

proof fn lemma_digits_val_take_le(s: Seq<char>, j: int)
    requires
        0 <= j <= s.len(),
    ensures
        digits_val(s.take(j)) <= digits_val(s),
    decreases s.len() - j,
{
    if j < s.len() {
        lemma_digits_val_take_le(s, j + 1);
        assert(s.take(j + 1).drop_last() =~= s.take(j));
        assert(digits_val(s.take(j + 1)) == digits_val(s.take(j)) * 10 + digit_val(
            s.take(j + 1).last(),
        ));
    } else {
        assert(s.take(j) =~= s);
    }
}

/// Parse a decimal number: `Some` exactly on non-empty all-digit strings
/// whose value fits in a `u64`.
pub fn parse_u64_dec(s: &str) -> (r: Option<u64>)
    ensures
        match r {
            Option::Some(v) => is_numeric(s@) && digits_val(s@) <= u64::MAX && v == digits_val(s@),
            Option::None => !is_numeric(s@) || digits_val(s@) > u64::MAX,
        },
{
    let l = s.unicode_len();
    if l == 0 {
        return None;
    }
    let mut acc: u64 = 0;
    let mut i: usize = 0;
    while i < l
        invariant
            i <= l,
            l == s@.len(),
            l > 0,
            forall|j: int| 0 <= j < i ==> is_digit(#[trigger] s@[j]),
            acc == digits_val(s@.take(i as int)),
        decreases l - i,
    {
        let c = s.get_char(i);
        if !(c >= '0' && c <= '9') {
            return None;
        }
        let d: u64 = (c as u32 as u64) - 48;
        if acc > (u64::MAX - d) / 10 {
            proof {
                assert(s@.take(i + 1).drop_last() =~= s@.take(i as int));
                assert(digits_val(s@.take(i + 1)) == acc * 10 + d);
                lemma_digits_val_take_le(s@, i + 1);
            }
            return None;
        }
        proof {
            assert(s@.take(i + 1).drop_last() =~= s@.take(i as int));
        }
        acc = acc * 10 + d;
        i += 1;
    }
    proof {
        assert(s@.take(l as int) =~= s@);
    }
    Some(acc)
}

/// The decimal digit character of a value below ten.
pub open spec fn digit_char(d: nat) -> char
    recommends
        d < 10,
{
    (('0' as nat) + d) as char
}

/// The canonical decimal rendering of a number.
pub open spec fn decimal_of(n: nat) -> Seq<char>
    decreases n,
{
    if n < 10 {
        seq![digit_char(n)]
    } else {
        decimal_of(n / 10).push(digit_char(n % 10))
    }
}

fn digit_str(d: u64) -> (r: &'static str)
    requires
        d < 10,
    ensures
        r@ =~= seq![digit_char(d as nat)],
{
    proof {
        reveal_strlit("0");
        reveal_strlit("1");
        reveal_strlit("2");
        reveal_strlit("3");
        reveal_strlit("4");
        reveal_strlit("5");
        reveal_strlit("6");
        reveal_strlit("7");
        reveal_strlit("8");
        reveal_strlit("9");
    }
    if d == 0 {
        "0"
    } else if d == 1 {
        "1"
    } else if d == 2 {
        "2"
    } else if d == 3 {
        "3"
    } else if d == 4 {
        "4"
    } else if d == 5 {
        "5"
    } else if d == 6 {
        "6"
    } else if d == 7 {
        "7"
    } else if d == 8 {
        "8"
    } else {
        "9"
    }
}

/// Render a number in decimal.
pub fn u64_to_dec(n: u64) -> (r: String)
    ensures
        r@ == decimal_of(n as nat),
    decreases n,
{
    if n < 10 {
        let s = String::from_str(digit_str(n));
        proof {
            assert(s@ =~= decimal_of(n as nat));
        }
        s
    } else {
        let q = n / 10;
        let rem = n % 10;
        let s = u64_to_dec(q);
        let s2 = s.concat(digit_str(rem));
        proof {
            assert(s2@ =~= decimal_of(n as nat));
        }
        s2
    }
}

/// The predicate "equals this delimiter character".
pub open spec fn char_eq_pred(d: char) -> spec_fn(char) -> bool {
    |c: char| c == d
}

/// The segments of `s` between occurrences of the delimiter `d`, empty
/// segments included.
pub open spec fn split_on(s: Seq<char>, d: char) -> Seq<Seq<char>>
    decreases s.len(),
    via split_on_decreases
{
    match crate::search::first_index_where(s, char_eq_pred(d)) {
        Option::None => seq![s],
        Option::Some(i) => seq![s.take(i)] + split_on(s.skip(i + 1), d),
    }
}

#[via_fn]
proof fn split_on_decreases(s: Seq<char>, d: char) {
    crate::search::lemma_first_index_where(s, char_eq_pred(d));
}

/// Split a string at every occurrence of a delimiter, keeping empty
/// segments.
pub fn split_on_char(s: &str, d: char) -> (r: Vec<String>)
    ensures
        r@.len() == split_on(s@, d).len(),
        forall|i: int| 0 <= i < r@.len() ==> r@[i]@ == split_on(s@, d)[i],
    decreases s@.len(),
{
    let l = s.unicode_len();
    let mut k: usize = 0;
    while k < l && s.get_char(k) != d
        invariant
            k <= l,
            l == s@.len(),
            forall|j: int| 0 <= j < k ==> !char_eq_pred(d)(s@[j]),
        decreases l - k,
    {
        k += 1;
    }
    if k == l {
        proof {
            crate::search::lemma_first_index_where(s@, char_eq_pred(d));
            if crate::search::first_index_where(s@, char_eq_pred(d)) is Some {
                let w = crate::search::first_index_where(s@, char_eq_pred(d))->Some_0;
                assert(!char_eq_pred(d)(s@[w]));
            }
        }
        let mut out: Vec<String> = Vec::new();
        out.push(s.to_owned());
        return out;
    }
    proof {
        crate::search::lemma_first_index_where_unique(s@, char_eq_pred(d), k as int);
    }
    let head = s.substring_char(0, k);
    let rest = s.substring_char(k + 1, l);
    proof {
        assert(head@ =~= s@.take(k as int));
        assert(rest@ =~= s@.skip(k + 1));
    }
    let tail_parts = split_on_char(rest, d);
    let mut out: Vec<String> = Vec::new();
    out.push(head.to_owned());
    let mut i: usize = 0;
    while i < tail_parts.len()
        invariant
            i <= tail_parts@.len(),
            out@.len() == 1 + i,
            out@[0]@ == split_on(s@, d)[0],
            split_on(s@, d).len() == 1 + tail_parts@.len(),
            forall|j: int| 0 <= j < tail_parts@.len() ==> tail_parts@[j]@ == split_on(s@, d)[j + 1],
            forall|j: int| 1 <= j < out@.len() ==> out@[j]@ == split_on(s@, d)[j],
        decreases tail_parts@.len() - i,
    {
        out.push(tail_parts[i].clone());
        i += 1;
    }
    out
}

/// A line without a trailing carriage return.
pub open spec fn strip_cr(l: Seq<char>) -> Seq<char> {
    if l.len() > 0 && l.last() == '\r' {
        l.drop_last()
    } else {
        l
    }
}

/// The lines of a text: the segments between newlines, each without a
/// trailing carriage return, and without a final empty segment.
pub open spec fn lines_of(s: Seq<char>) -> Seq<Seq<char>> {
    let raw = split_on(s, '\n');
    let kept = if raw.len() > 0 && raw.last().len() == 0 {
        raw.drop_last()
    } else {
        raw
    };
    kept.map_values(|l: Seq<char>| strip_cr(l))
}

/// Split a text into its lines.
pub fn split_lines(s: &str) -> (r: Vec<String>)
    ensures
        r@.len() == lines_of(s@).len(),
        forall|i: int| 0 <= i < r@.len() ==> r@[i]@ == lines_of(s@)[i],
{
    let mut raw = split_on_char(s, '\n');
    if raw.len() > 0 && raw[raw.len() - 1].as_str().unicode_len() == 0 {
        raw.pop();
    }
    proof {
        let rawspec = split_on(s@, '\n');
        let kept = if rawspec.len() > 0 && rawspec.last().len() == 0 {
            rawspec.drop_last()
        } else {
            rawspec
        };
        assert(raw@.len() == kept.len());
        assert(lines_of(s@).len() == kept.len());
        assert forall|j: int| 0 <= j < raw@.len() implies strip_cr(raw@[j]@) == lines_of(
            s@,
        )[j] by {
            assert(raw@[j]@ == kept[j]);
            assert(lines_of(s@)[j] == strip_cr(kept[j]));
        }
    }
    let n = raw.len();
    let mut out: Vec<String> = Vec::new();
    let mut i: usize = 0;
    while i < n
        invariant
            n == raw@.len(),
            i <= n,
            out@.len() == i,
            n == lines_of(s@).len(),
            forall|j: int| 0 <= j < n ==> strip_cr(#[trigger] raw@[j]@) == lines_of(s@)[j],
            forall|j: int| 0 <= j < i ==> out@[j]@ == lines_of(s@)[j],
        decreases n - i,
    {
        let line = &raw[i];
        let ll = line.as_str().unicode_len();
        if ll > 0 && line.as_str().get_char(ll - 1) == '\r' {
            let stripped = line.as_str().substring_char(0, ll - 1);
            proof {
                assert(stripped@ =~= raw@[i as int]@.drop_last());
            }
            out.push(stripped.to_owned());
        } else {
            out.push(line.clone());
        }
        i += 1;
    }
    out
}

/// Prefix test, specified as `starts_with_seq` on the views.
pub fn str_starts_with(h: &str, p: &str) -> (r: bool)
    ensures
        r == starts_with_seq(h@, p@),
{
    let hl = h.unicode_len();
    let pl = p.unicode_len();
    if pl > hl {
        return false;
    }
    matches_at(h, p, 0)
}

/// Suffix test, specified as `ends_with_seq` on the views.
pub fn str_ends_with(h: &str, s: &str) -> (r: bool)
    ensures
        r == ends_with_seq(h@, s@),
{
    let hl = h.unicode_len();
    let sl = s.unicode_len();
    if sl > hl {
        return false;
    }
    matches_at(h, s, hl - sl)
}

} // verus!
