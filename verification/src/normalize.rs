use vstd::prelude::*;
use vstd::string::StrSliceExecFns;

verus! {

/// Length of the horizontal rule that the planning tool prints around its
/// "refreshing state" preamble: a run of this many dash characters.
pub const DELIM_LEN: usize = 72;

/// The delimiter occurs in `s` at position `i`: the next `DELIM_LEN`
/// characters are all dashes.
pub open spec fn is_delim_at(s: Seq<char>, i: int) -> bool {
    &&& 0 <= i
    &&& i + DELIM_LEN <= s.len()
    &&& forall|j: int| i <= j < i + DELIM_LEN ==> s[j] == '-'
}

/// Position of the first delimiter occurrence at or after `i`, if any.
pub open spec fn first_delim_from(s: Seq<char>, i: int) -> Option<int>
    decreases s.len() - i,
{
    if i < 0 || i + DELIM_LEN > s.len() {
        None
    } else if is_delim_at(s, i) {
        Some(i)
    } else {
        first_delim_from(s, i + 1)
    }
}

/// Position of the leftmost delimiter occurrence in `s`, if any.
pub open spec fn first_delim(s: Seq<char>) -> Option<int> {
    first_delim_from(s, 0)
}

pub proof fn lemma_first_delim_from_props(s: Seq<char>, i: int)
    requires
        0 <= i,
    ensures
        first_delim_from(s, i) matches Some(k) ==> i <= k && is_delim_at(s, k) && (forall|m: int|
            i <= m < k ==> !is_delim_at(s, m)),
        first_delim_from(s, i) is None ==> (forall|m: int| m >= i ==> !is_delim_at(s, m)),
    decreases s.len() - i,
{
    if i + DELIM_LEN > s.len() {
    } else if is_delim_at(s, i) {
    } else {
        lemma_first_delim_from_props(s, i + 1);
    }
}

/// The first delimiter occurrence at or after `from` is the occurrence at `i`
/// when no earlier position at or after `from` holds one.
pub proof fn lemma_first_delim_found(s: Seq<char>, from: int, i: int)
    requires
        0 <= from <= i,
        is_delim_at(s, i),
        forall|m: int| from <= m < i ==> !is_delim_at(s, m),
    ensures
        first_delim_from(s, from) == Some(i),
    decreases i - from,
{
    if from < i {
        lemma_first_delim_found(s, from + 1, i);
    }
}

/// The segments of `s` between consecutive (leftmost, non-overlapping)
/// delimiter occurrences; the delimiters themselves are dropped. A text
/// without any delimiter is one single segment.
pub open spec fn split_segments(s: Seq<char>) -> Seq<Seq<char>>
    decreases s.len(),
    via split_segments_decreases
{
    match first_delim(s) {
        None => seq![s],
        Some(i) => seq![s.subrange(0, i)] + split_segments(
            s.subrange(i + DELIM_LEN, s.len() as int),
        ),
    }
}

#[via_fn]
proof fn split_segments_decreases(s: Seq<char>) {
    lemma_first_delim_from_props(s, 0);
}

/// What the normalizer returns: the second-to-last segment, provided the
/// delimiter occurred at least twice (at least three segments); nothing
/// otherwise.
pub open spec fn normalized_plan(s: Seq<char>) -> Option<Seq<char>> {
    let parts = split_segments(s);
    if parts.len() >= 3 {
        Some(parts[parts.len() - 2])
    } else {
        None
    }
}

/// A delimiter occurrence in the suffix of `s` that starts at `off` is a
/// delimiter occurrence in `s`, shifted by `off`, and conversely.
pub proof fn lemma_delim_in_suffix(s: Seq<char>, off: int, p: int)
    requires
        0 <= off <= s.len(),
    ensures
        is_delim_at(s.subrange(off, s.len() as int), p) <==> (p >= 0 && is_delim_at(s, off + p)),
{
    let t = s.subrange(off, s.len() as int);
    if is_delim_at(t, p) {
        assert forall|q: int| off + p <= q < off + p + DELIM_LEN implies s[q] == '-' by {
            assert(t[q - off] == s[q]);
        }
    }
    if p >= 0 && is_delim_at(s, off + p) {
        assert forall|q: int| p <= q < p + DELIM_LEN implies t[q] == '-' by {
            assert(t[q] == s[q + off]);
        }
    }
}

/// A text without any delimiter occurrence is one single segment.
pub proof fn lemma_split_no_delim(s: Seq<char>)
    requires
        forall|k: int| !is_delim_at(s, k),
    ensures
        split_segments(s) == seq![s],
        normalized_plan(s) is None,
{
    lemma_first_delim_from_props(s, 0);
    assert(first_delim(s) is None);
}

/// A text whose only delimiter occurrence is at `i` splits into the part
/// before and the part after it, and the normalizer rejects it: one
/// occurrence leaves no segment strictly between two delimiters.
pub proof fn lemma_split_one_delim(s: Seq<char>, i: int)
    requires
        is_delim_at(s, i),
        forall|k: int| is_delim_at(s, k) ==> k == i,
    ensures
        split_segments(s) == seq![
            s.subrange(0, i),
            s.subrange(i + DELIM_LEN, s.len() as int),
        ],
        normalized_plan(s) is None,
{
    let len = s.len() as int;
    assert forall|m: int| 0 <= m < i implies !is_delim_at(s, m) by {
        if is_delim_at(s, m) {
            assert(m == i);
        }
    }
    lemma_first_delim_found(s, 0, i);
    let t = s.subrange(i + DELIM_LEN, len);
    assert forall|p: int| !is_delim_at(t, p) by {
        lemma_delim_in_suffix(s, i + DELIM_LEN, p);
        if p >= 0 && is_delim_at(s, i + DELIM_LEN + p) {
            assert(i + DELIM_LEN + p == i);
        }
    }
    lemma_split_no_delim(t);
    assert(split_segments(s) =~= seq![s.subrange(0, i), t]);
}

/// The heart of the normalizer's contract: when the delimiter occurs exactly
/// twice, at `i` and at `j`, the normalized plan is exactly the text strictly
/// between the two occurrences.
pub proof fn lemma_split_two_delims(s: Seq<char>, i: int, j: int)
    requires
        is_delim_at(s, i),
        is_delim_at(s, j),
        i + DELIM_LEN <= j,
        forall|k: int| is_delim_at(s, k) ==> k == i || k == j,
    ensures
        split_segments(s) == seq![
            s.subrange(0, i),
            s.subrange(i + DELIM_LEN, j),
            s.subrange(j + DELIM_LEN, s.len() as int),
        ],
        normalized_plan(s) == Some(s.subrange(i + DELIM_LEN, j)),
{
    let d = DELIM_LEN as int;
    let len = s.len() as int;
    assert forall|m: int| 0 <= m < i implies !is_delim_at(s, m) by {
        if is_delim_at(s, m) {
            assert(m == i || m == j);
        }
    }
    lemma_first_delim_found(s, 0, i);
    let t = s.subrange(i + d, len);
    lemma_delim_in_suffix(s, i + d, j - i - d);
    assert forall|m: int| 0 <= m < j - i - d implies !is_delim_at(t, m) by {
        lemma_delim_in_suffix(s, i + d, m);
        if is_delim_at(s, i + d + m) {
            assert(i + d + m == i || i + d + m == j);
        }
    }
    lemma_first_delim_found(t, 0, j - i - d);
    let u = t.subrange(j - i, t.len() as int);
    assert(u =~= s.subrange(j + d, len));
    assert forall|p: int| !is_delim_at(u, p) by {
        lemma_delim_in_suffix(s, j + d, p);
        if p >= 0 && is_delim_at(s, j + d + p) {
            assert(j + d + p == i || j + d + p == j);
        }
    }
    lemma_split_no_delim(s.subrange(j + d, len));
    assert(split_segments(t) =~= seq![t.subrange(0, j - i - d)] + split_segments(u));
    assert(t.subrange(0, j - i - d) =~= s.subrange(i + d, j));
    assert(split_segments(s) =~= seq![
        s.subrange(0, i),
        s.subrange(i + d, j),
        s.subrange(j + d, len),
    ]);
}

/// Whether the delimiter occurs in `s` starting at position `i`.
fn delim_at(s: &str, i: usize) -> (b: bool)
    requires
        i + DELIM_LEN <= s@.len() <= usize::MAX,
    ensures
        b == is_delim_at(s@, i as int),
{
    let mut j: usize = 0;
    while j < DELIM_LEN
        invariant
            0 <= j <= DELIM_LEN,
            i + DELIM_LEN <= s@.len() <= usize::MAX,
            forall|q: int| i <= q < i + j ==> s@[q] == '-',
        decreases DELIM_LEN - j,
    {
        if s.get_char(i + j) != '-' {
            return false;
        }
        j += 1;
    }
    true
}

/// Find the leftmost delimiter occurrence in `s`, if any.
fn find_delim(s: &str) -> (r: Option<usize>)
    ensures
        match r {
            Some(i) => first_delim(s@) == Some(i as int),
            None => first_delim(s@) is None,
        },
{
    let len = s.unicode_len();
    if len < DELIM_LEN {
        return None;
    }
    let mut i: usize = 0;
    while i <= len - DELIM_LEN
        invariant
            len == s@.len(),
            DELIM_LEN <= len,
            0 <= i <= len - DELIM_LEN + 1,
            first_delim(s@) == first_delim_from(s@, i as int),
        decreases len - i,
    {
        if delim_at(s, i) {
            return Some(i);
        }
        i += 1;
    }
    None
}

/// Split `s` on the delimiter, leftmost occurrence first.
pub fn split_plan_output(s: &str) -> (parts: Vec<String>)
    ensures
        parts@.len() == split_segments(s@).len(),
        forall|k: int| 0 <= k < parts@.len() ==> parts@[k]@ == split_segments(s@)[k],
    decreases s@.len(),
{
    match find_delim(s) {
        None => {
            let mut parts: Vec<String> = Vec::new();
            parts.push(s.to_owned());
            parts
        },
        Some(i) => {
            proof {
                lemma_first_delim_from_props(s@, 0);
            }
            let len = s.unicode_len();
            let head = s.substring_char(0, i);
            let tail = s.substring_char(i + DELIM_LEN, len);
            let ghost gtail = s@.subrange(i + DELIM_LEN, s@.len() as int);
            let mut parts = split_plan_output(tail);
            parts.insert(0, head.to_owned());
            proof {
                assert(tail@ =~= gtail);
                assert(split_segments(s@) =~= seq![s@.subrange(0, i as int)] + split_segments(
                    gtail,
                ));
                assert forall|k: int| 0 <= k < parts@.len() implies parts@[k]@ == split_segments(
                    s@,
                )[k] by {
                    if k > 0 {
                        assert(parts@[k]@ == split_segments(gtail)[k - 1]);
                    }
                }
            }
            parts
        },
    }
}

/// Strip the planning tool's "refreshing state" preamble from its raw output:
/// split on the fixed dash delimiter and keep the second-to-last segment.
/// When the delimiter occurs fewer than two times there is no such segment
/// and the normalizer reports that explicitly instead of guessing.
pub fn remove_refresh_message(s: &str) -> (r: Option<String>)
    ensures
        match r {
            Some(t) => normalized_plan(s@) == Some(t@),
            None => normalized_plan(s@) is None,
        },
        r is Some <==> split_segments(s@).len() >= 3,
{
    let parts = split_plan_output(s);
    let n = parts.len();
    if n >= 3 {
        let t = parts[n - 2].clone();
        Some(t)
    } else {
        None
    }
}

} // verus!
