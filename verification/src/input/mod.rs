//! A prompt that accepts a text input: either single-line or multiline.

pub mod frame;
pub mod laws;
pub mod source;
mod validation;
pub mod verdict;
pub mod view;

pub use frame::{assemble, row};
pub use source::suggestions_of;
pub use verdict::{live_feedback, submission};
pub use view::{Candidates, Direction, Hint, InputView, Judge, Multiline, Oracle, Progress};

use crate::autocomplete::AutocompleteResult;
use crate::filter::{filter_strings, texts};
use crate::prompt::cursor::StringCursor;
use crate::prompt::interaction::{Event, KeyPress, Outcome, State};
use crate::theme::{paint, Theme, ThemeState};
use crate::validate::{in_words, Validate};
use frame::{frame, is_footer, is_header, is_input_line, is_row_of, suggestion_row};
use source::{boxed_source, function_gives, handled, handler_gives, Source, SuggestionSource};
use view::asks_source;
use std::fmt::Display;
use std::str::FromStr;
use validation::{worded, Check, ValidationCallback};
use verdict::{parse, reported, settled, settled_on};
use vstd::prelude::*;

verus! {

/// Where the suggestions of a prompt come from.
enum Suggester {
    /// A fixed list, which is filtered by the query.
    List(Vec<String>),
    /// A source that is asked anew for each query.
    Source(SuggestionSource),
}

/// A prompt that accepts a text input: either single-line or multiline.
///
/// The prompt is set up through its builder methods and then takes one key
/// press after the other through [`Input::on`].
pub struct Input {
    prompt: String,
    input: StringCursor,
    input_required: bool,
    default: Option<String>,
    placeholder: StringCursor,
    multiline: Multiline,
    validate_on_enter: Option<ValidationCallback>,
    validate_interactively: Option<ValidationCallback>,
    autocomplete: Option<Suggester>,
    autocompletion_index: Option<usize>,
    autocompletion_query: String,
    autocomplete_on_enter: bool,
}

impl View for Input {
    type V = InputView;

    closed spec fn view(&self) -> InputView {
        InputView {
            label: self.prompt@,
            buffer: self.input@,
            required: self.input_required,
            default: match self.default {
                Some(value) => Some(value@),
                None => None,
            },
            placeholder: self.placeholder@,
            multiline: self.multiline,
            live_check: match self.validate_interactively {
                Some(check) => Some(
                    |text: String, verdict: Result<(), String>| check.says(&text, verdict),
                ),
                None => None,
            },
            final_check: match self.validate_on_enter {
                Some(check) => Some(
                    |text: String, verdict: Result<(), String>| check.says(&text, verdict),
                ),
                None => None,
            },
            candidates: match self.autocomplete {
                Some(Suggester::List(list)) => Some(Candidates::List(texts(list@))),
                Some(Suggester::Source(source)) => Some(
                    Candidates::Source(
                        |query: String, answer: AutocompleteResult| source.answers(&query, answer),
                    ),
                ),
                None => None,
            },
            selection: match self.autocompletion_index {
                Some(at) => Some(at as nat),
                None => None,
            },
            query: self.autocompletion_query@,
            complete_on_enter: self.autocomplete_on_enter,
        }
    }
}

impl Default for Input {
    /// A single-line prompt without a label, whose input is not required.
    fn default() -> (input: Input)
        ensures
            input.wf(),
            input@ == (InputView { required: false, ..InputView::fresh(Seq::empty()) }),
    {
        Input {
            prompt: String::new(),
            input: StringCursor::default(),
            input_required: false,
            default: None,
            placeholder: StringCursor::default(),
            multiline: Multiline::Disabled,
            validate_on_enter: None,
            validate_interactively: None,
            autocomplete: None,
            autocompletion_index: None,
            autocompletion_query: String::new(),
            autocomplete_on_enter: false,
        }
    }
}

impl Input {
    /// Creates a new input prompt. Its label is `prompt` as `Display` writes
    /// it; an input is required.
    pub fn new(prompt: impl Display) -> (input: Input)
        ensures
            input.wf(),
            input@ == InputView::fresh(input@.label),
            exists|label: String| #[trigger]
                vstd::string::to_string_from_display_ensures(&prompt, label) && label@
                    == input@.label,
    {
        Input { prompt: prompt.to_string(), input_required: true, ..Default::default() }
    }

    /// The validators that the prompt holds may be asked about every text,
    /// and its source of suggestions about every query.
    pub closed spec fn checks_ready(&self) -> bool {
        &&& self.validate_on_enter matches Some(check) ==> check.ready()
        &&& self.validate_interactively matches Some(check) ==> check.ready()
        &&& self.autocomplete matches Some(Suggester::Source(source)) ==> source.ready()
    }

    /// The prompt is in order: see [`InputView::valid`].
    pub open spec fn wf(&self) -> bool {
        self@.valid() && self.checks_ready()
    }

    /// The suggestions for `query`. A fixed list gives its items that
    /// contain the query, letter case aside, in the order of the list. A
    /// source is asked about the query, and gives none where it fails. There
    /// are none for an empty query, for which no source is asked, and none
    /// without candidates.
    pub fn get_filtered_suggestions(&self, query: &str) -> (suggestions: Vec<String>)
        requires
            self.wf(),
        ensures
            self@.suggests(query@, texts(suggestions@)),
            self@.fixed() ==> texts(suggestions@) == self@.suggestions(query@),
    {
        let none: Vec<String> = Vec::new();
        assert(texts(none@) == Seq::<Seq<char>>::empty());
        if query.is_empty() {
            return none;
        }
        match &self.autocomplete {
            Some(Suggester::List(choices)) => filter_strings(query, choices),
            Some(Suggester::Source(source)) => {
                let asked = query.to_owned();
                let answer = source.suggest(&asked);
                let ghost given = answer;
                let suggestions = suggestions_of(answer);
                assert(asks_source(self@.candidates->0->Source_0, query@, asked, given));
                suggestions
            },
            None => none,
        }
    }

    /// Steps through the suggestions in `direction`, and says which
    /// suggestions there were.
    fn cycle(&mut self, direction: Direction) -> (list: Ghost<Seq<Seq<char>>>)
        requires
            old(self).wf(),
        ensures
            old(self)@.suggests(old(self)@.filter_query(), list@),
            final(self)@ == old(self)@.cycle(direction, list@),
            final(self).wf(),
    {
        let query = self.input.to_string();
        let pinned = self.autocompletion_query.as_str().is_empty();
        let filter_query = if pinned {
            query.clone()
        } else {
            self.autocompletion_query.clone()
        };
        let filtered = self.get_filtered_suggestions(filter_query.as_str());
        let list = Ghost(texts(filtered@));
        if filtered.is_empty() {
            return list;
        }
        // Store the query when first starting to navigate
        if pinned {
            self.autocompletion_query = query;
        }
        let last = filtered.len() - 1;
        let new_index = match self.autocompletion_index {
            None => match direction {
                Direction::Up => Some(last),
                _ => Some(0),
            },
            Some(idx) => match direction {
                Direction::Tab => if idx >= last {
                    None
                } else {
                    Some(idx + 1)
                },
                Direction::Down => if idx >= last {
                    Some(0)
                } else {
                    Some(idx + 1)
                },
                Direction::Up => if idx == 0 || idx > filtered.len() {
                    Some(last)
                } else {
                    Some(idx - 1)
                },
            },
        };
        self.autocompletion_index = new_index;
        if let Some(idx) = new_index {
            self.input.clear();
            self.input.extend(filtered[idx].as_str());
        }
        list
    }

    /// What was entered gives way to `text`.
    fn replace_input(&mut self, text: &str)
        requires
            old(self).wf(),
        ensures
            final(self)@ == old(self)@.holding(text@),
            final(self).wf(),
    {
        self.input.clear();
        self.input.extend(text);
    }

    /// Ends the stepping through the suggestions.
    fn release(&mut self)
        requires
            old(self).wf(),
        ensures
            final(self)@ == old(self)@.released(),
            final(self).wf(),
    {
        self.autocompletion_index = None;
        self.autocompletion_query = String::new();
    }

    /// Takes `key` in: changes the prompt as the key asks and says what is
    /// left to decide. The suggestions that the key needs are asked for
    /// once.
    pub fn advance(&mut self, key: KeyPress) -> (progress: Progress)
        requires
            old(self).wf(),
        ensures
            old(self)@.steps_to(key, final(self)@, progress),
            old(self)@.fixed() ==> (final(self)@, progress) == old(self)@.step_fixed(key),
            final(self).wf(),
    {
        if self.autocomplete.is_some() {
            match key {
                // Autocomplete: Tab to cycle through suggestions.
                KeyPress::Tab => {
                    let list = self.cycle(Direction::Tab);
                    assert(old(self)@.step(key, list@) == (self@, Progress::Absorbed));
                    return Progress::Absorbed;
                },
                // Autocomplete: ArrowDown to select next suggestion.
                KeyPress::ArrowDown => {
                    let list = self.cycle(Direction::Down);
                    assert(old(self)@.step(key, list@) == (self@, Progress::Absorbed));
                    return Progress::Absorbed;
                },
                // Autocomplete: ArrowUp to select previous suggestion.
                KeyPress::ArrowUp => {
                    let list = self.cycle(Direction::Up);
                    assert(old(self)@.step(key, list@) == (self@, Progress::Absorbed));
                    return Progress::Absorbed;
                },
                _ => {},
            }
        }
        let ghost mut list = Seq::<Seq<char>>::empty();
        let mut submit = false;
        match key {
            KeyPress::Escape => {
                // Multiline: editing -> preview.
                if self.multiline == Multiline::Editing {
                    self.multiline = Multiline::Preview;
                    assert(old(self)@.step(key, list) == (self@, Progress::Previewing));
                    return Progress::Previewing;
                }
            },
            KeyPress::Enter => {
                if self.multiline == Multiline::Editing {
                    self.input.insert('\n');
                } else {
                    submit = true;
                }
            },
            KeyPress::Backspace => {
                if self.multiline == Multiline::Preview {
                    self.input.delete_left();
                } else {
                    self.release();
                }
            },
            _ => {
                if let Some(chr) = key.printable() {
                    if self.multiline == Multiline::Preview {
                        // Multiline: don't lose 1 char switching from the preview mode to editing.
                        self.input.insert(chr);
                    } else {
                        // Reset autocompletion index when typing
                        self.release();
                    }
                }
            },
        }

        // Autocomplete on enter: select first suggestion if enabled
        if submit && self.autocomplete_on_enter && self.autocompletion_index.is_none() {
            let query = self.input.to_string();
            let suggestions = self.get_filtered_suggestions(query.as_str());
            proof {
                list = texts(suggestions@);
            }
            if !suggestions.is_empty() {
                self.replace_input(suggestions[0].as_str());
            }
        }

        // Multiline: preview -> editing.
        if self.multiline == Multiline::Preview {
            self.multiline = Multiline::Editing;
        }

        if submit && self.input.is_empty() {
            if let Some(default) = &self.default {
                self.input.extend(default.as_str());
            } else if self.input_required {
                assert(old(self)@.step(key, list) == (self@, Progress::Missing));
                return Progress::Missing;
            }
        }
        assert(old(self)@.step(key, list) == (self@, Progress::Pending { submit }));
        Progress::Pending { submit }
    }

    /// Lets the validators and the parser decide on what was entered.
    ///
    /// The validator that runs on every key is asked first, and where it
    /// accepts the text, the text must hold a value. On a submission the other
    /// validator is asked next, and then the value is read from the text.
    fn settle<T: FromStr>(&self, submit: bool) -> (state: State<T>)
        requires
            self.wf(),
        ensures
            settled(self@, submit, state@),
    {
        let text = self.input.to_string();
        if let Some(validator) = &self.validate_interactively {
            let verdict = validator.check(&text);
            let parses = verdict.is_ok() && parse::<T>(text.as_str()).is_some();
            let ghost said = verdict;
            if let Some(state) = live_feedback(verdict, parses) {
                assert(settled_on(self@, text, submit, state@));
                return state;
            }
            assert(said == Ok::<(), String>(said->Ok_0) && said->Ok_0 == ());
        }
        if submit {
            let verdict = match &self.validate_on_enter {
                Some(validator) => validator.check(&text),
                None => Ok(()),
            };
            let value = if verdict.is_ok() {
                parse::<T>(text.as_str())
            } else {
                None
            };
            let state = submission(verdict, value);
            assert(settled_on(self@, text, submit, state@));
            return state;
        }
        assert(settled_on(self@, text, submit, Outcome::<T>::Active));
        State::Active
    }

    /// Handles a key press.
    ///
    /// The prompt changes as [`InputView::step`] says, with the suggestions
    /// that the key needs ([`InputView::steps_to`]). Where the key stepped
    /// through the suggestions the prompt stays active; Escape that opens the
    /// preview of a multiline input is reported as `Cancel`, which the caller
    /// is to take for "stay active"; an empty input where one is required is
    /// refused. Everything else is for the validators and the parser to
    /// decide, on the text as it stands after the key: [`settled`] says what
    /// their answers lead to.
    pub fn on<T: FromStr>(&mut self, event: &Event) -> (state: State<T>)
        requires
            old(self).wf(),
        ensures
            exists|progress: Progress| #[trigger]
                old(self)@.steps_to(event.press(), final(self)@, progress) && reported(
                    progress,
                    final(self)@,
                    state@,
                ),
            old(self)@.fixed() ==> final(self)@ == old(self)@.step_fixed(event.press()).0
                && reported(old(self)@.step_fixed(event.press()).1, final(self)@, state@),
            final(self).wf(),
    {
        match self.advance(event.key_press()) {
            Progress::Absorbed => State::Active,
            // Workaround for `Esc`: "cancel cancelling".
            Progress::Previewing => State::Cancel,
            Progress::Missing => State::Error("Input required".to_string()),
            Progress::Pending { submit } => self.settle(submit),
        }
    }

    /// Sets the placeholder (hint) text for the input.
    pub fn placeholder(self, placeholder: &str) -> (input: Input)
        requires
            self.wf(),
        ensures
            input.wf(),
            input@ == (InputView { placeholder: self@.placeholder.extend(placeholder@), ..self@ }),
    {
        let mut input = self;
        input.placeholder.extend(placeholder);
        input
    }

    /// Sets the default value for the input and also a hint (placeholder) if
    /// one is not already set.
    ///
    /// [`Input::placeholder`] overrides a hint set by `default_input()`,
    /// however, the default value is used if no value has been supplied.
    pub fn default_input(self, value: &str) -> (input: Input)
        requires
            self.wf(),
        ensures
            input.wf(),
            input@ == (InputView { default: Some(value@), ..self@ }),
    {
        let mut input = self;
        input.default = Some(value.to_owned());
        input
    }

    /// Sets whether the input is required. Default: `true`.
    ///
    /// [`Input::default_input`] is used if no value is supplied.
    pub fn required(self, required: bool) -> (input: Input)
        requires
            self.wf(),
        ensures
            input.wf(),
            input@ == (InputView { required, ..self@ }),
    {
        let mut input = self;
        input.input_required = required;
        input
    }

    /// Enables multiline input.
    ///
    /// 1. Press `Esc` to review and submit.
    /// 2. Start typing to get back into the editing mode.
    pub fn multiline(self) -> (input: Input)
        requires
            self.wf(),
        ensures
            input.wf(),
            input@ == (InputView { multiline: Multiline::Editing, ..self@ }),
    {
        let mut input = self;
        input.multiline = Multiline::Editing;
        input
    }

    /// Sets a validation callback for the input that is called when the user
    /// submits. The same as [`Input::validate_on_enter`].
    ///
    /// The prompt keeps the validator with its reasons put into words: what
    /// the kept one may answer about a text, `validator` may answer. It takes
    /// the place of an earlier validator on submission; the one that runs on
    /// every key stays as it is. The validator is not asked here.
    ///
    /// The validator must be one that may be asked about every text; of a
    /// function or closure [`lemma_function_admits`] says when that is so.
    ///
    /// [`lemma_function_admits`]: crate::validate::lemma_function_admits
    pub fn validate<V, E>(self, validator: V) -> (input: Input) where
        V: Validate<String, Err = E> + 'static,
        E: ToString,

        requires
            self.wf(),
            forall|text: &String| validator.admits(text),
        ensures
            input.wf(),
            input@ == (InputView { final_check: input@.final_check, ..self@ }),
            input@.final_check matches Some(judge) && forall|
                text: String,
                verdict: Result<(), String>,
            | #[trigger]
                judge(text, verdict) ==> in_words(&validator, &text, verdict),
    {
        let mut input = self;
        input.validate_on_enter = worded(validator);
        input
    }

    /// Sets a validation callback for the input that is called when the user
    /// submits. The same as [`Input::validate`].
    pub fn validate_on_enter<V, E>(self, validator: V) -> (input: Input) where
        V: Validate<String, Err = E> + 'static,
        E: ToString,

        requires
            self.wf(),
            forall|text: &String| validator.admits(text),
        ensures
            input.wf(),
            input@ == (InputView { final_check: input@.final_check, ..self@ }),
            input@.final_check matches Some(judge) && forall|
                text: String,
                verdict: Result<(), String>,
            | #[trigger]
                judge(text, verdict) ==> in_words(&validator, &text, verdict),
    {
        self.validate(validator)
    }

    /// Validates input while user is typing.
    ///
    /// The prompt keeps the validator with its reasons put into words: what
    /// the kept one may answer about a text, `validator` may answer. It takes
    /// the place of an earlier validator of this kind; the one that runs on
    /// submission stays as it is. The validator is not asked here.
    pub fn validate_interactively<V, E>(self, validator: V) -> (input: Input) where
        V: Validate<String, Err = E> + 'static,
        E: ToString,

        requires
            self.wf(),
            forall|text: &String| validator.admits(text),
        ensures
            input.wf(),
            input@ == (InputView { live_check: input@.live_check, ..self@ }),
            input@.live_check matches Some(judge) && forall|
                text: String,
                verdict: Result<(), String>,
            | #[trigger]
                judge(text, verdict) ==> in_words(&validator, &text, verdict),
    {
        let mut input = self;
        input.validate_interactively = worded(validator);
        input
    }

    /// Gets the prompt ready for its first key. With a default value, a
    /// multiline input starts in the preview, and where no placeholder was
    /// set, the default value is shown in its place, marked as the default.
    pub fn prepare(&mut self)
        requires
            old(self).wf(),
        ensures
            final(self)@ == old(self)@.prepared(),
            final(self).wf(),
    {
        if let Some(default) = &self.default {
            if self.placeholder.is_empty() {
                self.placeholder.extend(default.as_str());
                self.placeholder.extend(" (default)");
            }
            if self.multiline == Multiline::Editing {
                // The preview mode is convenient for immediate submission of the default value.
                self.multiline = Multiline::Preview;
            }
        }
    }

    /// Sets a list of suggestions for autocompletion.
    ///
    /// When the user presses Tab or uses arrow keys, they can cycle through
    /// matching suggestions. A highlighted suggestion and the pinned query
    /// stay as they are; only where the new list has no suggestion at the
    /// highlighted place are both given up.
    pub fn autocomplete(self, suggestions: Vec<String>) -> (input: Input)
        requires
            self.wf(),
        ensures
            input.wf(),
            input@ == self@.with_list(texts(suggestions@)),
    {
        let mut input = self;
        if let Some(idx) = input.autocompletion_index {
            let kept = filter_strings(input.autocompletion_query.as_str(), &suggestions);
            if idx >= kept.len() {
                input.release();
            }
        }
        input.autocomplete = Some(Suggester::List(suggestions));
        input
    }

    /// Enables auto-selecting the first suggestion when pressing Enter.
    ///
    /// If there are matching suggestions, the first one will be automatically
    /// selected and filled in when the user presses Enter.
    pub fn autocomplete_on_enter(self) -> (input: Input)
        requires
            self.wf(),
        ensures
            input.wf(),
            input@ == (InputView { complete_on_enter: true, ..self@ }),
    {
        let mut input = self;
        input.autocomplete_on_enter = true;
        input
    }

    /// Sets a dynamic autocomplete handler function.
    ///
    /// The handler is called with the current input to get suggestions: it
    /// is asked anew for each step through the suggestions, for Enter that
    /// takes the first suggestion, and for each drawing of the prompt. It is
    /// not asked about an empty input, and it is not asked here.
    pub fn autocompletion_handler<F>(self, handler: F) -> (input: Input) where
        F: Fn(&str) -> Vec<String> + 'static,

        requires
            self.wf(),
            forall|query: &str| call_requires(handler, (query,)),
        ensures
            input.wf(),
            input@ == (InputView { candidates: input@.candidates, ..self@ }),
            input@.candidates matches Some(Candidates::Source(oracle)) && forall|
                query: String,
                answer: AutocompleteResult,
            | #[trigger]
                oracle(query, answer) ==> handler_gives(&handler, query@, answer),
    {
        let mut input = self;
        let ghost before = input@;
        if let Some(kept) = handled(handler) {
            input.autocomplete = Some(Suggester::Source(kept));
        }
        assert(input@ == (InputView { candidates: input@.candidates, ..before }));
        input
    }

    /// Sets a source of suggestions that is asked with the current input
    /// and that can fail: where it does, there are no suggestions, and
    /// typing goes on.
    ///
    /// The source is asked anew for each step through the suggestions, for
    /// Enter that takes the first suggestion, and for each drawing of the
    /// prompt. It is not asked about an empty input, and it is not asked
    /// here.
    pub fn autocomplete_with<F>(self, source: F) -> (input: Input) where
        F: Fn(&str) -> AutocompleteResult + 'static,

        requires
            self.wf(),
            forall|query: &str| call_requires(source, (query,)),
        ensures
            input.wf(),
            input@ == (InputView { candidates: input@.candidates, ..self@ }),
            input@.candidates matches Some(Candidates::Source(oracle)) && forall|
                query: String,
                answer: AutocompleteResult,
            | #[trigger]
                oracle(query, answer) ==> function_gives(&source, query@, answer),
    {
        let mut input = self;
        let ghost before = input@;
        if let Some(kept) = boxed_source(source) {
            input.autocomplete = Some(Suggester::Source(kept));
        }
        assert(input@ == (InputView { candidates: input@.candidates, ..before }));
        input
    }

    /// Edits the line as `key` asks, unless a multiline input is in the
    /// preview: a typed character is inserted, Backspace deletes to the left.
    pub fn route(&mut self, key: KeyPress)
        requires
            old(self).wf(),
        ensures
            final(self)@ == old(self)@.routed(key),
            final(self).wf(),
    {
        if let Some(cursor) = self.input() {
            match key {
                KeyPress::Backspace => cursor.delete_left(),
                _ => {
                    if let Some(chr) = key.printable() {
                        cursor.insert(chr);
                    }
                },
            }
        }
    }

    /// One turn of the loop that reads the keys: the line is edited, the
    /// prompt handles the key, and Escape is settled.
    ///
    /// Escape cancels the prompt, unless the prompt answers it with `Cancel`
    /// itself: a multiline input does so when Escape opens its preview, and
    /// then the prompt stays active. For every other key the state is the one
    /// that [`Input::on`] reports.
    pub fn handle<T: FromStr>(&mut self, event: &Event) -> (state: State<T>)
        requires
            old(self).wf(),
        ensures
            exists|progress: Progress| #[trigger]
                old(self)@.routed(event.press()).steps_to(event.press(), final(self)@, progress)
                    && (!(event.press() is Escape) ==> reported(progress, final(self)@, state@)),
            event.press() is Escape ==> state@ == if old(self)@.multiline is Editing {
                Outcome::<T>::Active
            } else {
                Outcome::<T>::Cancel
            },
            old(self)@.fixed() ==> final(self)@ == old(self)@.routed(event.press()).step_fixed(
                event.press(),
            ).0 && (!(event.press() is Escape) ==> reported(
                old(self)@.routed(event.press()).step_fixed(event.press()).1,
                final(self)@,
                state@,
            )),
            final(self).wf(),
    {
        let key = event.key_press();
        self.route(key);
        let state = self.on::<T>(event);
        match key {
            KeyPress::Escape => match state {
                State::Cancel => State::Active,
                _ => State::Cancel,
            },
            _ => state,
        }
    }

    /// The hint that the footer gives; `listed` says whether suggestions are
    /// listed below the input.
    pub fn hint(&self, listed: bool) -> (hint: Hint)
        ensures
            hint == self@.hint(listed),
    {
        if listed {
            return Hint::Navigate;
        }
        match self.multiline {
            Multiline::Editing => Hint::Preview,
            Multiline::Preview => Hint::Submit,
            Multiline::Disabled => Hint::Nothing,
        }
    }

    /// Whether the suggestion in row `at` of the list is the highlighted one.
    pub fn highlights(&self, at: usize) -> (highlighted: bool)
        ensures
            highlighted == self@.highlights(at as nat),
    {
        match self.autocompletion_index {
            Some(idx) => idx == at,
            None => false,
        }
    }

    /// Whether the input line shows the placeholder: it does while nothing
    /// has been entered.
    pub fn shows_placeholder(&self) -> (shown: bool)
        ensures
            shown == self@.shows_placeholder(),
    {
        self.input.is_empty()
    }

    /// The suggestions for the pinned query, or for what has been entered
    /// while no query is pinned.
    pub fn shown_suggestions(&self) -> (suggestions: Vec<String>)
        requires
            self.wf(),
        ensures
            self@.shows(true, texts(suggestions@)),
            self@.fixed() ==> texts(suggestions@) == self@.suggestions(self@.filter_query()),
    {
        let filter_query = if self.autocompletion_query.as_str().is_empty() {
            self.input.to_string()
        } else {
            self.autocompletion_query.clone()
        };
        self.get_filtered_suggestions(filter_query.as_str())
    }

    /// The style of the suggestion in row `at` of the list: that of the bar
    /// for the highlighted suggestion, that of the input for every other.
    pub fn row_style<Th: Theme + ?Sized>(&self, theme: &Th, state: &ThemeState, at: usize) -> (style:
        console::Style)
        ensures
            if self@.highlights(at as nat) {
                call_ensures(Th::bar_color, (theme, state), style)
            } else {
                call_ensures(Th::input_style, (theme, state), style)
            },
    {
        if self.highlights(at) {
            theme.bar_color(state)
        } else {
            theme.input_style(state)
        }
    }

    /// Draws row `at` of the list of suggestions, which holds `suggestion`:
    /// the bar in its style, and the suggestion in the style of
    /// [`Input::row_style`].
    pub fn draw_row<Th: Theme + ?Sized>(
        &self,
        theme: &Th,
        state: &ThemeState,
        at: usize,
        suggestion: &str,
    ) -> (drawn: String)
        ensures
            is_row_of(suggestion@, drawn@),
    {
        let bar = paint(&theme.bar_color(state), "│");
        let choice = paint(&self.row_style(theme, state, at), suggestion);
        row(bar.as_str(), choice.as_str())
    }

    /// Draws the prompt in `state`, styled by `theme`: the header, the input
    /// line, the footer and, while the prompt is active, the suggestions,
    /// with the bar in front of each and the highlighted one in the style of
    /// the bar.
    ///
    /// What each part looks like is for the theme to say. The prompt decides
    /// what is shown: the placeholder or what was entered
    /// ([`Input::shows_placeholder`]), which hint ([`Input::hint`]), which
    /// suggestions ([`Input::shown_suggestions`]) and each of them in which
    /// style ([`Input::row_style`]); and it puts the parts together as
    /// [`frame`] says, one row for each suggestion, in their order. The
    /// suggestions are asked for once.
    pub fn render<T, Th: Theme + ?Sized>(&self, state: &State<T>, theme: &Th) -> (drawn: String)
        requires
            self.wf(),
        ensures
            exists|
                header: Seq<char>,
                input: Seq<char>,
                footer: Seq<char>,
                list: Seq<Seq<char>>,
                rows: Seq<Seq<char>>,
            |
                {
                    &&& drawn@ == #[trigger] frame(header, input, footer, rows)
                    &&& is_header(theme, state@.plain(), self@.label, header)
                    &&& is_input_line(theme, state@.plain(), self@, input)
                    &&& #[trigger] self@.shows(state@ is Active, list)
                    &&& is_footer(theme, state@.plain(), self@.hint(list.len() > 0), footer)
                    &&& rows.len() == list.len()
                    &&& forall|at: int|
                        0 <= at < rows.len() ==> is_row_of(list[at], #[trigger] rows[at])
                },
    {
        let themed = state.theme_state();
        let active = match state {
            State::Active => true,
            _ => false,
        };
        let suggestions = if active {
            self.shown_suggestions()
        } else {
            Vec::new()
        };
        assert(!active ==> texts(suggestions@) == Seq::<Seq<char>>::empty());
        let mut rows: Vec<String> = Vec::new();
        let mut at: usize = 0;
        while at < suggestions.len()
            invariant
                at <= suggestions.len(),
                rows.len() == at,
                forall|k: int|
                    0 <= k < at ==> is_row_of(texts(suggestions@)[k], #[trigger] texts(rows@)[k]),
            decreases suggestions.len() - at,
        {
            let ghost before = rows@;
            rows.push(self.draw_row(theme, &themed, at, suggestions[at].as_str()));
            assert(texts(rows@) == texts(before).push(rows@[at as int]@));
            at = at + 1;
        }
        let header = theme.format_header(&themed, self.prompt.as_str());
        let input = if self.shows_placeholder() {
            theme.format_placeholder(&themed, &self.placeholder)
        } else {
            theme.format_input(&themed, &self.input)
        };
        let footer = match self.hint(!suggestions.is_empty()) {
            Hint::Navigate => theme.format_footer_with_tab(&themed),
            hint => theme.format_footer_with_message(&themed, hint.message()),
        };
        let ghost parts = (header@, input@, footer@);
        let drawn = assemble(header, input.as_str(), footer.as_str(), &rows);
        assert(drawn@ == frame(parts.0, parts.1, parts.2, texts(rows@)));
        assert(self@.shows(state@ is Active, texts(suggestions@)));
        drawn
    }

    /// The buffer that typing goes to, or `None` while a multiline input is
    /// in the preview, where keys reach the text through [`Input::on`] alone.
    pub fn input(&mut self) -> (cursor: Option<&mut StringCursor>)
        requires
            old(self).wf(),
        ensures
            old(self)@.multiline is Preview ==> cursor is None && *final(self) == *old(self),
            !(old(self)@.multiline is Preview) ==> (cursor matches Some(cursor) && cursor@ == old(
                self,
            )@.buffer && cursor.wf() && final(self)@ == (InputView {
                buffer: final(cursor)@,
                ..old(self)@
            }) && final(self).checks_ready()),
    {
        if self.multiline == Multiline::Preview {
            return None;
        }
        Some(&mut self.input)
    }

    /// What was entered.
    pub fn text(&self) -> (text: String)
        ensures
            text@ == self@.buffer.text,
    {
        self.input.to_string()
    }

    /// The index of the highlighted suggestion, if one is highlighted.
    pub fn selection(&self) -> (selection: Option<usize>)
        ensures
            self@.selection == match selection {
                Some(at) => Some(at as nat),
                None => None,
            },
    {
        self.autocompletion_index
    }

    /// The query that is pinned while the user steps through the suggestions;
    /// empty otherwise.
    pub fn pinned_query(&self) -> (query: String)
        ensures
            query@ == self@.query,
    {
        self.autocompletion_query.clone()
    }
}

} // verus!
