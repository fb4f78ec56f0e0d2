//! Sources of suggestions: a fixed list of candidates, or a function that is
//! asked anew for each query.

use crate::filter::{filter_strings, matching, texts};
use vstd::prelude::*;

verus! {

/// What a source of suggestions answers: the suggestions, best first, or the
/// reason why it has none to give.
pub type AutocompleteResult = Result<Vec<String>, String>;

/// A source of suggestions for what the user has entered.
pub trait Autocomplete: Send {
    /// Whether the source may be asked about `input`: about any, unless the
    /// source says otherwise.
    open spec fn accepts(&self, input: &str) -> bool {
        true
    }

    /// The suggestions for `input`.
    fn get_suggestions(&mut self, input: &str) -> (suggestions: AutocompleteResult)
        requires
            old(self).accepts(input),
    ;

    /// What is to be entered when the user accepts `highlighted`.
    fn get_completion(&mut self, input: &str, highlighted: Option<String>) -> (completion: Option<
        String,
    >);
}

/// A fixed list of candidates suggests those that contain the input, letter
/// case aside, in the order of the list, and nothing for an empty input.
impl Autocomplete for Vec<String> {
    fn get_suggestions(&mut self, input: &str) -> (suggestions: AutocompleteResult)
        ensures
            suggestions matches Ok(list) && texts(list@) == matching(input@, texts(old(self)@)),
            *final(self) == *old(self),
    {
        Ok(filter_strings(input, self))
    }

    fn get_completion(&mut self, input: &str, highlighted: Option<String>) -> (completion: Option<
        String,
    >)
        ensures
            completion == highlighted,
            *final(self) == *old(self),
    {
        highlighted
    }
}

/// A function from the input to suggestions is asked each time, and what it
/// answers is handed on as it is.
impl<F> Autocomplete for F where F: Fn(&str) -> AutocompleteResult + Send {
    open spec fn accepts(&self, input: &str) -> bool {
        call_requires(*self, (input,))
    }

    fn get_suggestions(&mut self, input: &str) -> (suggestions: AutocompleteResult)
        ensures
            call_ensures(*old(self), (input,), suggestions),
            *final(self) == *old(self),
    {
        self(input)
    }

    fn get_completion(&mut self, input: &str, highlighted: Option<String>) -> (completion: Option<
        String,
    >)
        ensures
            completion == highlighted,
            *final(self) == *old(self),
    {
        highlighted
    }
}

/// A function accepts exactly what it can be called with.
pub proof fn lemma_function_accepts<F>(source: F) where F: Fn(&str) -> AutocompleteResult + Send
    ensures
        forall|input: &str| #[trigger] source.accepts(input) == call_requires(source, (input,)),
{
}

} // verus!
