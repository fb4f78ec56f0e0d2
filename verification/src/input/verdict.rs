//! What a prompt reports once its validators and its parser have spoken.

use crate::input::view::{InputView, Judge, Progress};
use crate::prompt::interaction::{Outcome, State};
use std::str::FromStr;
use vstd::prelude::*;

verus! {

/// `str::parse` reads a value of type `T` from `text`, or finds none in it.
/// Which texts hold a value is for `T`'s own `FromStr` to say: nothing is
/// claimed of the result.
#[verifier::external_body]
pub(crate) fn parse<T: FromStr>(text: &str) -> (value: Option<T>) {
    text.parse::<T>().ok()
}

/// The message for an empty input where one is required.
pub open spec fn input_required() -> Seq<char> {
    "Input required"@
}

/// The message for a text that holds no value of the type asked for.
pub open spec fn invalid_format() -> Seq<char> {
    "Invalid value format"@
}

/// Whether the validator, if there is one, may give `verdict` about `text`.
/// Where there is none, the text is accepted.
pub open spec fn judged(check: Option<Judge>, text: String, verdict: Result<(), String>) -> bool {
    match check {
        Some(judge) => judge(text, verdict),
        None => verdict is Ok,
    }
}

/// The validator that runs on every key objects to `text`, and `outcome`
/// reports it: the validator refuses the text, or accepts a text that holds
/// no value.
pub open spec fn live_objection<T>(prompt: InputView, text: String, outcome: Outcome<T>) -> bool {
    prompt.live_check matches Some(judge) && exists|verdict: Result<(), String>, parses: bool|
        judge(text, verdict) && #[trigger] live_outcome::<T>(verdict, parses) == Some(outcome)
}

/// The validator that runs on every key, if there is one, may accept `text`.
pub open spec fn live_accepts(prompt: InputView, text: String) -> bool {
    prompt.live_check matches Some(judge) ==> judge(text, Ok(()))
}

/// `outcome` is what a submission of `text` comes to, for a verdict that the
/// validator on submission may give and for some value or none read from the
/// text.
pub open spec fn final_verdict<T>(prompt: InputView, text: String, outcome: Outcome<T>) -> bool {
    exists|verdict: Result<(), String>, value: Option<T>|
        judged(prompt.final_check, text, verdict) && #[trigger] submitted(verdict, value)
            == outcome
}

/// What a prompt reports about `text` once its validators and its parser
/// have spoken. The validator that runs on every key comes first: its
/// objection is the report. Where it has none, an edit leaves the prompt
/// active, and a submission comes to what the validator on submission and
/// the parser make of it.
pub open spec fn settled_on<T>(
    prompt: InputView,
    text: String,
    submit: bool,
    outcome: Outcome<T>,
) -> bool {
    ||| live_objection(prompt, text, outcome)
    ||| live_accepts(prompt, text) && if submit {
        final_verdict(prompt, text, outcome)
    } else {
        outcome is Active
    }
}

/// What a prompt reports once its validators and its parser have spoken
/// about what was entered: see [`settled_on`].
pub open spec fn settled<T>(prompt: InputView, submit: bool, outcome: Outcome<T>) -> bool {
    exists|text: String|
        text@ == prompt.buffer.text && #[trigger] settled_on(prompt, text, submit, outcome)
}

/// What a prompt can report once its validators and its parser have spoken,
/// whatever they said. A mere edit never submits and a submission never
/// leaves the prompt just active. A refusal needs someone to refuse: the
/// validator that runs on every key, or on a submission the other validator
/// or the parser, whose only message is that of an invalid format.
pub open spec fn possible<T>(prompt: InputView, submit: bool, outcome: Outcome<T>) -> bool {
    match outcome {
        Outcome::Active => !submit,
        Outcome::Cancel => false,
        Outcome::Submit(_) => submit,
        Outcome::Error(message) => prompt.live_check is Some || (submit && (prompt.final_check
            is Some || message == invalid_format())),
    }
}

/// What a prompt reports after a key press that left `progress` to decide.
pub open spec fn reported<T>(progress: Progress, prompt: InputView, outcome: Outcome<T>) -> bool {
    match progress {
        Progress::Absorbed => outcome is Active,
        Progress::Previewing => outcome is Cancel,
        Progress::Missing => outcome == Outcome::<T>::Error(input_required()),
        Progress::Pending { submit } => settled(prompt, submit, outcome),
    }
}

/// What the validator that runs on every key makes of an edit: its refusal is
/// reported with its reason, and so is a text that it accepts but that holds
/// no value. `None` means that it has no objection.
pub open spec fn live_outcome<T>(verdict: Result<(), String>, parses: bool) -> Option<Outcome<T>> {
    match verdict {
        Err(reason) => Some(Outcome::Error(reason@)),
        Ok(_) => if parses {
            None
        } else {
            Some(Outcome::Error(invalid_format()))
        },
    }
}

/// What a submission comes to: the validator's refusal with its reason, else
/// the value that was read, else the report of an invalid format.
pub open spec fn submitted<T>(verdict: Result<(), String>, value: Option<T>) -> Outcome<T> {
    match verdict {
        Err(reason) => Outcome::Error(reason@),
        Ok(_) => match value {
            Some(value) => Outcome::Submit(value),
            None => Outcome::Error(invalid_format()),
        },
    }
}

/// Reports what the validator that runs on every key made of an edit.
/// `parses` says whether the text holds a value; it is not looked at where
/// the validator refused.
pub fn live_feedback<T>(verdict: Result<(), String>, parses: bool) -> (state: Option<State<T>>)
    ensures
        live_outcome::<T>(verdict, parses) == match state {
            Some(state) => Some(state@),
            None => None,
        },
{
    match verdict {
        Err(reason) => Some(State::Error(reason)),
        Ok(_) => {
            if parses {
                None
            } else {
                Some(State::Error("Invalid value format".to_string()))
            }
        },
    }
}

/// Reports what a submission came to. `value` is what was read from the
/// text; it is not looked at where the validator refused.
pub fn submission<T>(verdict: Result<(), String>, value: Option<T>) -> (state: State<T>)
    ensures
        state@ == submitted(verdict, value),
{
    match verdict {
        Err(reason) => State::Error(reason),
        Ok(_) => match value {
            Some(value) => State::Submit(value),
            None => State::Error("Invalid value format".to_string()),
        },
    }
}

} // verus!
