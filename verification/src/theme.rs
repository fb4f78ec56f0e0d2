//! What a prompt asks of the theme that styles it.

use crate::prompt::cursor::StringCursor;
use crate::prompt::interaction::{Outcome, State};
use vstd::prelude::*;

verus! {

/// A set of text attributes: colors, boldness and the like.
#[verifier::external_type_specification]
#[verifier::external_body]
pub struct ExStyle(console::Style);

/// The state of a prompt as a theme sees it: a [`State`] without its value.
pub enum ThemeState {
    /// The prompt goes on reading keys.
    Active,
    /// The prompt was cancelled.
    Cancel,
    /// The prompt was submitted.
    Submit,
    /// The input was refused with a message.
    Error(String),
}

impl View for ThemeState {
    type V = Outcome<()>;

    open spec fn view(&self) -> Outcome<()> {
        match *self {
            ThemeState::Active => Outcome::Active,
            ThemeState::Cancel => Outcome::Cancel,
            ThemeState::Submit => Outcome::Submit(()),
            ThemeState::Error(message) => Outcome::Error(message@),
        }
    }
}

impl<T> Outcome<T> {
    /// The outcome without its value.
    pub open spec fn plain(self) -> Outcome<()> {
        match self {
            Outcome::Active => Outcome::Active,
            Outcome::Cancel => Outcome::Cancel,
            Outcome::Submit(_) => Outcome::Submit(()),
            Outcome::Error(message) => Outcome::Error(message),
        }
    }
}

impl<T> State<T> {
    /// The state as a theme sees it.
    pub fn theme_state(&self) -> (state: ThemeState)
        ensures
            state@ == self@.plain(),
    {
        match self {
            State::Active => ThemeState::Active,
            State::Cancel => ThemeState::Cancel,
            State::Submit(_) => ThemeState::Submit,
            State::Error(message) => ThemeState::Error(message.clone()),
        }
    }
}

/// The styling of a prompt: how each of its parts is turned into the text
/// that is written to the terminal.
pub trait Theme {
    /// The style of the bar at the left of the prompt.
    fn bar_color(&self, state: &ThemeState) -> console::Style;

    /// The style of what the user has entered.
    fn input_style(&self, state: &ThemeState) -> console::Style;

    /// The header: the label of the prompt.
    fn format_header(&self, state: &ThemeState, prompt: &str) -> String;

    /// The input line, with what the user has entered.
    fn format_input(&self, state: &ThemeState, cursor: &StringCursor) -> String;

    /// The input line, with the placeholder.
    fn format_placeholder(&self, state: &ThemeState, cursor: &StringCursor) -> String;

    /// The footer, with a hint.
    fn format_footer_with_message(&self, state: &ThemeState, message: &str) -> String;

    /// The footer, with the hint on how to step through the suggestions.
    fn format_footer_with_tab(&self, state: &ThemeState) -> String;
}

/// `text` between a lead and a tail.
pub open spec fn wrapped(lead: Seq<char>, text: Seq<char>, tail: Seq<char>) -> Seq<char> {
    lead + text + tail
}

/// `styled` is `text` with something before it and something after it, or
/// with nothing there.
pub open spec fn painted(text: Seq<char>, styled: Seq<char>) -> bool {
    exists|lead: Seq<char>, tail: Seq<char>| styled == #[trigger] wrapped(lead, text, tail)
}

/// `console::Style::apply_to`, written out as `Display` does: `text` in the
/// given style. The text itself is written as it is; the codes that switch
/// the style on come before it and the code that switches it off after it.
/// Whether there are any depends on the style and on the terminal.
#[verifier::external_body]
pub(crate) fn paint(style: &console::Style, text: &str) -> (styled: String)
    ensures
        painted(text@, styled@),
{
    style.apply_to(text).to_string()
}

} // verus!
