//! How the parts of a prompt are put together into what is drawn.

use crate::filter::texts;
use crate::input::view::{Hint, InputView};
use crate::prompt::cursor::StringCursor;
use crate::prompt::interaction::Outcome;
use crate::theme::{painted, Theme, ThemeState};
use vstd::prelude::*;
use vstd::string::StringExecFns;

verus! {

/// One line of the list of suggestions: the bar and the suggestion, each
/// after two spaces.
pub open spec fn suggestion_row(bar: Seq<char>, choice: Seq<char>) -> Seq<char> {
    "  "@ + bar + "  "@ + choice
}

/// Whether `row` is the line of the list of suggestions that holds
/// `suggestion`: the bar and the suggestion, each as it is or with
/// something around it that styles it.
pub open spec fn is_row_of(suggestion: Seq<char>, row: Seq<char>) -> bool {
    exists|bar: Seq<char>, choice: Seq<char>|
        row == #[trigger] suggestion_row(bar, choice) && painted("│"@, bar) && painted(
            suggestion,
            choice,
        )
}

/// The rows, with a line break between each two.
pub open spec fn joined(rows: Seq<Seq<char>>) -> Seq<char>
    decreases rows.len(),
{
    if rows.len() == 0 {
        Seq::empty()
    } else if rows.len() == 1 {
        rows[0]
    } else {
        joined(rows.drop_last()) + "\n"@ + rows.last()
    }
}

/// The list of suggestions: its rows, each on a line of its own; nothing at
/// all without a row.
pub open spec fn block(rows: Seq<Seq<char>>) -> Seq<char> {
    if rows.len() == 0 {
        Seq::empty()
    } else {
        joined(rows) + "\n"@
    }
}

/// A prompt as it is drawn: header, input line, footer, list of suggestions.
pub open spec fn frame(
    header: Seq<char>,
    input: Seq<char>,
    footer: Seq<char>,
    rows: Seq<Seq<char>>,
) -> Seq<char> {
    header + input + footer + block(rows)
}

/// `header` is an answer of the theme's `format_header` for this state and
/// this label.
pub open spec fn is_header<Th: Theme + ?Sized>(
    theme: &Th,
    state: Outcome<()>,
    label: Seq<char>,
    header: Seq<char>,
) -> bool {
    exists|themed: ThemeState, prompt: &str, drawn: String|
        themed@ == state && prompt@ == label && drawn@ == header && #[trigger] call_ensures(
            Th::format_header,
            (theme, &themed, prompt),
            drawn,
        )
}

/// `line` is an answer of the theme's `format_placeholder` for this state
/// and this placeholder.
pub open spec fn is_placeholder_line<Th: Theme + ?Sized>(
    theme: &Th,
    state: Outcome<()>,
    prompt: InputView,
    line: Seq<char>,
) -> bool {
    exists|themed: ThemeState, cursor: StringCursor, drawn: String|
        themed@ == state && cursor@ == prompt.placeholder && drawn@ == line
            && #[trigger] call_ensures(Th::format_placeholder, (theme, &themed, &cursor), drawn)
}

/// `line` is an answer of the theme's `format_input` for this state and for
/// what was entered.
pub open spec fn is_entered_line<Th: Theme + ?Sized>(
    theme: &Th,
    state: Outcome<()>,
    prompt: InputView,
    line: Seq<char>,
) -> bool {
    exists|themed: ThemeState, cursor: StringCursor, drawn: String|
        themed@ == state && cursor@ == prompt.buffer && drawn@ == line && #[trigger] call_ensures(
            Th::format_input,
            (theme, &themed, &cursor),
            drawn,
        )
}

/// `line` is the theme's input line: with the placeholder while nothing has
/// been entered, else with what was entered.
pub open spec fn is_input_line<Th: Theme + ?Sized>(
    theme: &Th,
    state: Outcome<()>,
    prompt: InputView,
    line: Seq<char>,
) -> bool {
    if prompt.shows_placeholder() {
        is_placeholder_line(theme, state, prompt, line)
    } else {
        is_entered_line(theme, state, prompt, line)
    }
}

/// `footer` is an answer of the theme's `format_footer_with_tab` for this
/// state.
pub open spec fn is_tab_footer<Th: Theme + ?Sized>(
    theme: &Th,
    state: Outcome<()>,
    footer: Seq<char>,
) -> bool {
    exists|themed: ThemeState, drawn: String|
        themed@ == state && drawn@ == footer && #[trigger] call_ensures(
            Th::format_footer_with_tab,
            (theme, &themed),
            drawn,
        )
}

/// `footer` is an answer of the theme's `format_footer_with_message` for
/// this state and these words.
pub open spec fn is_message_footer<Th: Theme + ?Sized>(
    theme: &Th,
    state: Outcome<()>,
    words: Seq<char>,
    footer: Seq<char>,
) -> bool {
    exists|themed: ThemeState, message: &str, drawn: String|
        themed@ == state && message@ == words && drawn@ == footer && #[trigger] call_ensures(
            Th::format_footer_with_message,
            (theme, &themed, message),
            drawn,
        )
}

/// `footer` is the theme's footer for `hint`.
pub open spec fn is_footer<Th: Theme + ?Sized>(
    theme: &Th,
    state: Outcome<()>,
    hint: Hint,
    footer: Seq<char>,
) -> bool {
    if hint is Navigate {
        is_tab_footer(theme, state, footer)
    } else {
        is_message_footer(theme, state, hint.words(), footer)
    }
}

/// Lays out one line of the list of suggestions.
pub fn row(bar: &str, choice: &str) -> (row: String)
    ensures
        row@ == suggestion_row(bar@, choice@),
{
    let mut row = "  ".to_owned();
    row.append(bar);
    row.append("  ");
    row.append(choice);
    row
}

/// Puts the parts of a prompt together into what is drawn.
pub fn assemble(header: String, input: &str, footer: &str, rows: &Vec<String>) -> (drawn: String)
    ensures
        drawn@ == frame(header@, input@, footer@, texts(rows@)),
{
    let ghost top = header@ + input@ + footer@;
    let mut drawn = header;
    drawn.append(input);
    drawn.append(footer);
    let mut at: usize = 0;
    while at < rows.len()
        invariant
            at <= rows.len(),
            drawn@ == top + joined(texts(rows@).take(at as int)),
        decreases rows.len() - at,
    {
        assert(texts(rows@).take(at + 1).drop_last() == texts(rows@).take(at as int));
        if at > 0 {
            drawn.append("\n");
        }
        drawn.append(rows[at].as_str());
        at = at + 1;
    }
    assert(texts(rows@).take(rows@.len() as int) == texts(rows@));
    if rows.len() > 0 {
        drawn.append("\n");
    }
    drawn
}

} // verus!
