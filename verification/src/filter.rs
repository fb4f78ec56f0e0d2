//! Which candidates match a query: those that contain it, letter case aside.

use vstd::prelude::*;

verus! {

/// The lowercase form of a text, as `str::to_lowercase` gives it.
pub uninterp spec fn lowercase(text: Seq<char>) -> Seq<char>;

/// `str::to_lowercase` returns the lowercase form of the text. It follows the
/// Unicode tables alone, so equal texts give equal results.
pub assume_specification[ str::to_lowercase ](text: &str) -> (lower: String)
    ensures
        lower@ == lowercase(text@),
;

/// `needle` stands in `text` at offset `at`, character for character.
pub open spec fn occurs_at(needle: Seq<char>, text: Seq<char>, at: int) -> bool {
    0 <= at && at + needle.len() <= text.len() && text.subrange(at, at + needle.len()) == needle
}

/// `needle` stands somewhere in `text`.
pub open spec fn occurs_in(needle: Seq<char>, text: Seq<char>) -> bool {
    exists|at: int| occurs_at(needle, text, at)
}

/// The candidate contains the query when both are taken in lowercase.
pub open spec fn is_match(query: Seq<char>, candidate: Seq<char>) -> bool {
    occurs_in(lowercase(query), lowercase(candidate))
}

/// The test that [`matching`] applies to each candidate.
pub open spec fn matcher(query: Seq<char>) -> spec_fn(Seq<char>) -> bool {
    |candidate: Seq<char>| is_match(query, candidate)
}

/// The candidates that match `query`, in the order of the list. An empty query
/// matches nothing.
pub open spec fn matching(query: Seq<char>, candidates: Seq<Seq<char>>) -> Seq<Seq<char>> {
    if query.len() == 0 {
        Seq::empty()
    } else {
        candidates.filter(matcher(query))
    }
}

/// The texts of a list of strings.
pub open spec fn texts(strings: Seq<String>) -> Seq<Seq<char>> {
    strings.map_values(|string: String| string@)
}

/// The characters of `text`.
fn chars_of(text: &str) -> (chars: Vec<char>)
    ensures
        chars@ == text@,
{
    let mut chars: Vec<char> = Vec::new();
    for chr in rest: text.chars()
        invariant
            rest.seq() == text@,
            chars@ == text@.take(rest.index() as int),
    {
        chars.push(chr);
    }
    chars
}

/// Whether `needle` stands in `text` at offset `at`.
pub fn starts_at(text: &Vec<char>, needle: &Vec<char>, at: usize) -> (found: bool)
    requires
        at + needle.len() <= text.len(),
    ensures
        found == occurs_at(needle@, text@, at as int),
{
    let mut matched: usize = 0;
    while matched < needle.len()
        invariant
            matched <= needle.len(),
            at + needle.len() <= text.len(),
            forall|k: int| 0 <= k < matched ==> text@[at + k] == needle@[k],
        decreases needle.len() - matched,
    {
        if text[at + matched] != needle[matched] {
            assert(text@.subrange(at as int, at + needle.len())[matched as int]
                != needle@[matched as int]);
            return false;
        }
        matched = matched + 1;
    }
    assert(text@.subrange(at as int, at + needle.len()) =~= needle@);
    true
}

/// Whether `needle` stands somewhere in `text`.
pub fn occurs(text: &Vec<char>, needle: &Vec<char>) -> (found: bool)
    ensures
        found == occurs_in(needle@, text@),
{
    if needle.len() > text.len() {
        return false;
    }
    let last = text.len() - needle.len();
    let mut at: usize = 0;
    loop
        invariant
            at <= last,
            last + needle.len() == text.len(),
            forall|k: int| 0 <= k < at ==> !occurs_at(needle@, text@, k),
        decreases last - at,
    {
        if starts_at(text, needle, at) {
            return true;
        }
        if at == last {
            return false;
        }
        at = at + 1;
    }
}

/// The candidates that contain `query`, letter case aside, in the order of the
/// list. An empty query gives no candidate at all.
pub fn filter_strings(query: &str, candidates: &Vec<String>) -> (matches: Vec<String>)
    ensures
        texts(matches@) == matching(query@, texts(candidates@)),
{
    let mut matches: Vec<String> = Vec::new();
    if query.is_empty() {
        return matches;
    }
    let needle = chars_of(query.to_lowercase().as_str());
    let mut at: usize = 0;
    while at < candidates.len()
        invariant
            at <= candidates.len(),
            needle@ == lowercase(query@),
            texts(matches@) == texts(candidates@).take(at as int).filter(matcher(query@)),
        decreases candidates.len() - at,
    {
        let candidate = &candidates[at];
        let text = chars_of(candidate.to_lowercase().as_str());
        proof {
            let seen = texts(candidates@).take(at as int);
            assert(texts(candidates@).take(at + 1) == seen.push(candidate@));
            seen.lemma_filter_push(candidate@, matcher(query@));
        }
        if occurs(&text, &needle) {
            matches.push(candidate.clone());
        }
        at = at + 1;
    }
    assert(texts(candidates@).take(candidates@.len() as int) == texts(candidates@));
    matches
}

/// What stands in a text that stands in another stands in that other one.
pub proof fn lemma_occurs_in_is_transitive(inner: Seq<char>, middle: Seq<char>, text: Seq<char>)
    requires
        occurs_in(inner, middle),
        occurs_in(middle, text),
    ensures
        occurs_in(inner, text),
{
    let first = choose|at: int| occurs_at(inner, middle, at);
    let second = choose|at: int| occurs_at(middle, text, at);
    assert(text.subrange(second + first, second + first + inner.len()) == middle.subrange(
        first,
        first + inner.len(),
    ));
    assert(occurs_at(inner, text, second + first));
}

/// A query never matches more than a query whose lowercase form it
/// contains: every candidate that matches `longer` matches `query` too.
pub proof fn lemma_longer_query_matches_less(
    query: Seq<char>,
    longer: Seq<char>,
    candidate: Seq<char>,
)
    requires
        occurs_in(lowercase(query), lowercase(longer)),
        is_match(longer, candidate),
    ensures
        is_match(query, candidate),
{
    lemma_occurs_in_is_transitive(lowercase(query), lowercase(longer), lowercase(candidate));
}

/// A query never has more suggestions than a query whose lowercase form it
/// contains: each suggestion for `longer` is a suggestion for `query`.
pub proof fn lemma_longer_query_suggests_less(
    query: Seq<char>,
    longer: Seq<char>,
    candidates: Seq<Seq<char>>,
)
    requires
        query.len() > 0,
        occurs_in(lowercase(query), lowercase(longer)),
    ensures
        forall|candidate: Seq<char>| #[trigger]
            matching(longer, candidates).contains(candidate) ==> matching(
                query,
                candidates,
            ).contains(candidate),
{
    assert forall|candidate: Seq<char>| #[trigger]
        matching(longer, candidates).contains(candidate) implies matching(
        query,
        candidates,
    ).contains(candidate) by {
        let found = matching(longer, candidates);
        let at = choose|at: int| 0 <= at < found.len() && found[at] == candidate;
        candidates.lemma_filter_pred(matcher(longer), at);
        candidates.lemma_filter_contains_rev(matcher(longer), candidate);
        lemma_longer_query_matches_less(query, longer, candidate);
        let place = choose|place: int| 0 <= place < candidates.len() && candidates[place] == candidate;
        candidates.lemma_filter_contains(matcher(query), place);
    }
}

} // verus!
