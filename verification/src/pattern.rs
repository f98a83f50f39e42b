//! Patterns and wildcard-aware first-match search over byte buffers.

use vstd::prelude::*;

verus! {

/// A pattern: an ordered sequence of slots, each either `Some(b)` — the exact
/// byte `b` is required — or `None` — a wildcard that any byte satisfies.
pub type Pattern = Vec<Option<u8>>;

/// Whether byte `b` satisfies pattern slot `slot`.
pub open spec fn slot_matches(slot: Option<u8>, b: u8) -> bool {
    match slot {
        Some(x) => b == x,
        None => true,
    }
}

/// Whether `pat` matches `hay` contiguously at offset `i`.
pub open spec fn matches_at(hay: Seq<u8>, pat: Seq<Option<u8>>, i: int) -> bool {
    &&& 0 <= i
    &&& i + pat.len() <= hay.len()
    &&& forall|j: int| 0 <= j < pat.len() ==> slot_matches(pat[j], hay[i + j])
}

/// The first offset at or after `i` at which `pat` matches `hay`, if any.
pub open spec fn first_match_from(hay: Seq<u8>, pat: Seq<Option<u8>>, i: int) -> Option<int>
    decreases hay.len() - i,
{
    if i < 0 || i + pat.len() > hay.len() {
        None
    } else if matches_at(hay, pat, i) {
        Some(i)
    } else {
        first_match_from(hay, pat, i + 1)
    }
}

/// The first offset at which `pat` matches `hay`, if any.
pub open spec fn first_match(hay: Seq<u8>, pat: Seq<Option<u8>>) -> Option<int> {
    first_match_from(hay, pat, 0)
}

proof fn lemma_first_match_from_spec(hay: Seq<u8>, pat: Seq<Option<u8>>, k: int)
    requires
        0 <= k,
    ensures
        match first_match_from(hay, pat, k) {
            Some(o) => k <= o && matches_at(hay, pat, o) && (forall|i: int|
                k <= i < o ==> !matches_at(hay, pat, i)),
            None => forall|i: int| k <= i ==> !matches_at(hay, pat, i),
        },
    decreases hay.len() - k,
{
    if k + pat.len() > hay.len() {
    } else if matches_at(hay, pat, k) {
    } else {
        lemma_first_match_from_spec(hay, pat, k + 1);
    }
}

/// `first_match` names the least matching offset: a `Some` offset matches and
/// no earlier offset does; `None` means no offset matches at all.
pub proof fn lemma_first_match_spec(hay: Seq<u8>, pat: Seq<Option<u8>>)
    ensures
        match first_match(hay, pat) {
            Some(o) => 0 <= o && matches_at(hay, pat, o) && (forall|i: int|
                0 <= i < o ==> !matches_at(hay, pat, i)),
            None => forall|i: int| !matches_at(hay, pat, i),
        },
{
    lemma_first_match_from_spec(hay, pat, 0);
}

/// The least matching offset determines `first_match` uniquely.
pub proof fn lemma_first_match_unique(hay: Seq<u8>, pat: Seq<Option<u8>>, o: int)
    requires
        matches_at(hay, pat, o),
        forall|i: int| 0 <= i < o ==> !matches_at(hay, pat, i),
    ensures
        first_match(hay, pat) == Some(o),
{
    lemma_first_match_spec(hay, pat);
}

/// Matching past a prefix: at offsets at or after the prefix's end, a match
/// in `prefix + rest` is exactly a match in `rest` at the shifted offset.
pub proof fn lemma_matches_at_shift(
    prefix: Seq<u8>,
    rest: Seq<u8>,
    pat: Seq<Option<u8>>,
    i: int,
)
    requires
        prefix.len() <= i,
    ensures
        matches_at(prefix + rest, pat, i) == matches_at(rest, pat, i - prefix.len()),
{
    let live = prefix + rest;
    let k = i - prefix.len();
    if matches_at(live, pat, i) {
        assert forall|j: int| 0 <= j < pat.len() implies slot_matches(pat[j], rest[k + j]) by {
            assert(slot_matches(pat[j], live[i + j]));
            assert(live[i + j] == rest[k + j]);
        }
        assert(matches_at(rest, pat, k));
    }
    if matches_at(rest, pat, k) {
        assert forall|j: int| 0 <= j < pat.len() implies slot_matches(pat[j], live[i + j]) by {
            assert(slot_matches(pat[j], rest[k + j]));
            assert(live[i + j] == rest[k + j]);
        }
        assert(matches_at(live, pat, i));
    }
}

/// A pattern of wildcards alone matches at the very first offset of any
/// haystack long enough to hold it.
pub proof fn lemma_all_wildcards_match_first(hay: Seq<u8>, pat: Seq<Option<u8>>)
    requires
        pat.len() <= hay.len(),
        forall|j: int| 0 <= j < pat.len() ==> pat[j] is None,
    ensures
        first_match(hay, pat) == Some(0int),
{
    assert(matches_at(hay, pat, 0));
}

fn matches_here(hay: &Vec<u8>, pat: &Pattern, i: usize) -> (r: bool)
    requires
        i + pat@.len() <= hay@.len(),
    ensures
        r == matches_at(hay@, pat@, i as int),
{
    let hay_len: usize = hay.len();
    let mut j: usize = 0;
    while j < pat.len()
        invariant
            i + pat@.len() <= hay@.len(),
            hay@.len() == hay_len,
            0 <= j <= pat@.len(),
            forall|t: int| 0 <= t < j ==> slot_matches(pat@[t], hay@[i + t]),
        decreases pat@.len() - j,
    {
        let ok = match pat[j] {
            Some(x) => hay[i + j] == x,
            None => true,
        };
        if !ok {
            assert(!slot_matches(pat@[j as int], hay@[i + j]));
            return false;
        }
        j += 1;
    }
    true
}

/// Wildcard-aware first-match search: the first offset at which `pat` matches
/// `hay` contiguously, or `None` when it matches nowhere.
pub fn find_pattern(hay: &Vec<u8>, pat: &Pattern) -> (r: Option<usize>)
    ensures
        r matches Some(o) ==> first_match(hay@, pat@) == Some(o as int),
        r is None ==> first_match(hay@, pat@) is None,
{
    if pat.len() > hay.len() {
        proof {
            lemma_first_match_spec(hay@, pat@);
        }
        return None;
    }
    if pat.len() == 0 {
        proof {
            assert(matches_at(hay@, pat@, 0));
            lemma_first_match_unique(hay@, pat@, 0);
        }
        return Some(0);
    }
    let last: usize = hay.len() - pat.len();
    let mut i: usize = 0;
    while i <= last
        invariant
            1 <= pat@.len() <= hay@.len(),
            hay@.len() <= usize::MAX,
            last == hay@.len() - pat@.len(),
            0 <= i <= last + 1,
            forall|t: int| 0 <= t < i ==> !matches_at(hay@, pat@, t),
        decreases last + 1 - i,
    {
        if matches_here(hay, pat, i) {
            proof {
                lemma_first_match_unique(hay@, pat@, i as int);
            }
            return Some(i);
        }
        i += 1;
    }
    proof {
        lemma_first_match_spec(hay@, pat@);
    }
    None
}

} // verus!
