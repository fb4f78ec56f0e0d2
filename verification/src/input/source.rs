//! How a prompt keeps the source of suggestions that it is given.

use crate::autocomplete::AutocompleteResult;
use crate::filter::texts;
use crate::input::view::listed;
use vstd::prelude::*;

verus! {

/// A source of suggestions as the prompt keeps it.
pub(crate) trait Source {
    /// Whether the source may be asked about every query.
    spec fn ready(&self) -> bool;

    /// Whether `answer` is one that the source may give to `query`.
    spec fn answers(&self, query: &String, answer: AutocompleteResult) -> bool;

    fn suggest(&self, query: &String) -> (answer: AutocompleteResult)
        requires
            self.ready(),
        ensures
            self.answers(query, answer),
    ;
}

impl<F> Source for F where F: Fn(&str) -> AutocompleteResult {
    closed spec fn ready(&self) -> bool {
        forall|query: &str| call_requires(*self, (query,))
    }

    closed spec fn answers(&self, query: &String, answer: AutocompleteResult) -> bool {
        exists|asked: &str| asked@ == query@ && #[trigger] call_ensures(*self, (asked,), answer)
    }

    fn suggest(&self, query: &String) -> (answer: AutocompleteResult) {
        self(query.as_str())
    }
}

pub(crate) type SuggestionSource = Box<dyn Source>;

/// The suggestions that an answer of a source comes to: those that it
/// gives, and none where the source failed, so that a source that fails
/// never stands in the way of typing.
pub fn suggestions_of(answer: AutocompleteResult) -> (suggestions: Vec<String>)
    ensures
        texts(suggestions@) == listed(answer),
{
    match answer {
        Ok(list) => list,
        Err(_) => Vec::new(),
    }
}

/// Whether `handler`, asked about `query`, may give the suggestions of
/// `answer`; a handler never fails.
pub open spec fn handler_gives<F: Fn(&str) -> Vec<String>>(
    handler: &F,
    query: Seq<char>,
    answer: AutocompleteResult,
) -> bool {
    answer matches Ok(list) && exists|asked: &str|
        asked@ == query && #[trigger] call_ensures(*handler, (asked,), list)
}

/// Whether `source`, asked about `query`, may give `answer`.
pub open spec fn function_gives<F: Fn(&str) -> AutocompleteResult>(
    source: &F,
    query: Seq<char>,
    answer: AutocompleteResult,
) -> bool {
    exists|asked: &str| asked@ == query && #[trigger] call_ensures(*source, (asked,), answer)
}

/// Puts a source in a box.
pub(crate) fn boxed_source<F: Fn(&str) -> AutocompleteResult + 'static>(source: F) -> (kept: Option<
    SuggestionSource,
>)
    requires
        forall|query: &str| call_requires(source, (query,)),
    ensures
        kept matches Some(kept) && kept.ready() && forall|
            query: &String,
            answer: AutocompleteResult,
        | #[trigger]
            kept.answers(query, answer) ==> function_gives(&source, query@, answer),
{
    let kept: SuggestionSource = Box::new(source);
    Some(kept)
}

/// Whether `handler` may be asked about `query`.
spec fn may_ask<F: Fn(&str) -> Vec<String>>(handler: &F, query: &str) -> bool {
    call_requires(*handler, (query,))
}

/// Whether `handler`, asked about `query`, may answer `list`.
spec fn may_answer<F: Fn(&str) -> Vec<String>>(handler: &F, query: &str, list: Vec<String>) -> bool {
    call_ensures(*handler, (query,), list)
}

/// The source that asks `handler`, which always has an answer.
pub(crate) fn handled<F: Fn(&str) -> Vec<String> + 'static>(handler: F) -> (kept: Option<
    SuggestionSource,
>)
    requires
        forall|query: &str| call_requires(handler, (query,)),
    ensures
        kept matches Some(kept) && kept.ready() && forall|
            query: &String,
            answer: AutocompleteResult,
        | #[trigger]
            kept.answers(query, answer) ==> handler_gives(&handler, query@, answer),
{
    let source = move |query: &str| -> (answer: AutocompleteResult)
        requires
            may_ask(&handler, query),
        ensures
            answer matches Ok(list) && may_answer(&handler, query, list),
        { Ok(handler(query)) };
    boxed_source(source)
}

} // verus!
