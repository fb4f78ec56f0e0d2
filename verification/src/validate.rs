//! Validators: checks that accept an input or refuse it with a reason.

use vstd::prelude::*;

verus! {

/// A check on a value of type `T`.
///
/// Any function or closure from `&T` to a `Result<(), E>` is a validator.
pub trait Validate<T> {
    /// The reason given for refusing an input.
    type Err;

    /// Whether the validator may be asked about `input`: about any, unless
    /// the validator says otherwise.
    open spec fn admits(&self, input: &T) -> bool {
        true
    }

    /// Whether `verdict` is an answer that the validator may give about
    /// `input`: any answer, unless the validator says otherwise.
    open spec fn answers(&self, input: &T, verdict: Result<(), Self::Err>) -> bool {
        true
    }

    /// Accepts `input`, or refuses it with a reason.
    fn validate(&self, input: &T) -> (verdict: Result<(), Self::Err>)
        requires
            self.admits(input),
        ensures
            self.answers(input, verdict),
    ;
}

impl<T, F, E> Validate<T> for F where F: Fn(&T) -> Result<(), E> {
    type Err = E;

    /// A function may be asked about whatever it can be called with.
    open spec fn admits(&self, input: &T) -> bool {
        call_requires(*self, (input,))
    }

    /// A function answers what a call of it can return.
    open spec fn answers(&self, input: &T, verdict: Result<(), E>) -> bool {
        call_ensures(*self, (input,), verdict)
    }

    fn validate(&self, input: &T) -> (verdict: Result<(), E>) {
        self(input)
    }
}

/// What an answer of `validator` comes to once its reason is put into words:
/// an acceptance is one of the validator, and a refusal is one that the
/// validator gives for some reason.
pub open spec fn in_words<V, E>(validator: &V, text: &String, verdict: Result<(), String>) -> bool where
    V: Validate<String, Err = E>,
 {
    match verdict {
        Ok(_) => validator.answers(text, Ok(())),
        Err(_) => exists|reason: E| validator.answers(text, Err(reason)),
    }
}

/// A function admits exactly what it can be called with, and answers
/// exactly what a call of it can return.
pub proof fn lemma_function_admits<T, F, E>(validator: F) where F: Fn(&T) -> Result<(), E>
    ensures
        forall|input: &T| #[trigger] validator.admits(input) == call_requires(validator, (input,)),
        forall|input: &T, verdict: Result<(), E>| #[trigger]
            validator.answers(input, verdict) == call_ensures(validator, (input,), verdict),
{
}

} // verus!
