//! How a prompt keeps the validators that it is given.

use crate::validate::{in_words, Validate};
use vstd::prelude::*;

verus! {

/// A validator as the prompt keeps it: the reason for a refusal is text.
pub(crate) trait Check {
    /// Whether the validator may be asked about every text.
    spec fn ready(&self) -> bool;

    /// Whether `verdict` is an answer that the validator may give about
    /// `input`.
    spec fn says(&self, input: &String, verdict: Result<(), String>) -> bool;

    fn check(&self, input: &String) -> (verdict: Result<(), String>)
        requires
            self.ready(),
        ensures
            self.says(input, verdict),
    ;
}

impl<F> Check for F where F: Fn(&String) -> Result<(), String> {
    closed spec fn ready(&self) -> bool {
        forall|input: &String| call_requires(*self, (input,))
    }

    closed spec fn says(&self, input: &String, verdict: Result<(), String>) -> bool {
        call_ensures(*self, (input,), verdict)
    }

    fn check(&self, input: &String) -> (verdict: Result<(), String>)
        ensures
            call_ensures(*self, (input,), verdict),
    {
        self(input)
    }
}

pub(crate) type ValidationCallback = Box<dyn Check>;

/// Puts a validator in a box.
fn boxed<F: Fn(&String) -> Result<(), String> + 'static>(check: F) -> (callback: Option<
    ValidationCallback,
>)
    requires
        forall|input: &String| call_requires(check, (input,)),
    ensures
        callback matches Some(kept) && kept.ready() && forall|
            input: &String,
            verdict: Result<(), String>,
        | #[trigger]
            kept.says(input, verdict) ==> call_ensures(check, (input,), verdict),
{
    let callback: ValidationCallback = Box::new(check);
    Some(callback)
}

/// `ToString::to_string` puts a validator's reason into words. The words are
/// for the reason's own type to choose: nothing is claimed of them.
#[verifier::external_body]
fn message<E: ToString>(reason: &E) -> (words: String) {
    reason.to_string()
}

/// The validator as a prompt keeps it: it accepts what `validator` accepts,
/// and gives the reasons of `validator` in words.
pub(crate) fn worded<V, E>(validator: V) -> (callback: Option<ValidationCallback>) where
    V: Validate<String, Err = E> + 'static,
    E: ToString,

    requires
        forall|text: &String| validator.admits(text),
    ensures
        callback matches Some(kept) && kept.ready() && forall|
            text: &String,
            verdict: Result<(), String>,
        | #[trigger]
            kept.says(text, verdict) ==> in_words(&validator, text, verdict),
{
    let check = move |text: &String| -> (verdict: Result<(), String>)
        requires
            validator.admits(text),
        ensures
            in_words(&validator, text, verdict),
        {
            let answer = validator.validate(text);
            match answer {
                Ok(unit) => {
                    assert(answer == Ok::<(), E>(unit) && unit == ());
                    Ok(())
                },
                Err(reason) => {
                    assert(validator.answers(text, Err(reason)));
                    Err(message(&reason))
                },
            }
        };
    boxed(check)
}

} // verus!
