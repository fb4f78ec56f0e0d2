//! The prompt as the rules of a key press see it, and the rules themselves.

use crate::autocomplete::AutocompleteResult;
use crate::filter::{matching, texts};
use crate::prompt::cursor::Buffer;
use crate::prompt::interaction::KeyPress;
use vstd::prelude::*;

verus! {

/// How a prompt reads Enter and Escape.
#[derive(Clone, Copy, PartialEq, Eq, Debug, Structural)]
pub enum Multiline {
    /// One line: Enter submits.
    Disabled,
    /// Several lines, shown before they are submitted: Enter submits, typing
    /// goes back to editing.
    Preview,
    /// Several lines, being edited: Enter breaks the line, Escape opens the
    /// preview.
    Editing,
}

/// A way to step through the suggestions.
#[derive(Clone, Copy, PartialEq, Eq, Debug, Structural)]
pub enum Direction {
    /// Forward, and past the last suggestion to no selection.
    Tab,
    /// Forward, and past the last suggestion to the first.
    Down,
    /// Backward, and before the first suggestion to the last.
    Up,
}

/// What a key press leaves to be decided once the prompt has taken it in.
#[derive(Clone, Copy, PartialEq, Eq, Debug, Structural)]
pub enum Progress {
    /// The key stepped through the suggestions: the prompt stays active.
    Absorbed,
    /// Escape opened the preview of a multiline input.
    Previewing,
    /// Nothing was entered where an input is required.
    Missing,
    /// The validators and the parser decide, on a submission or on a mere edit.
    Pending { submit: bool },
}

/// The hint that the footer of a prompt gives.
#[derive(Clone, Copy, PartialEq, Eq, Debug, Structural)]
pub enum Hint {
    /// How to step through the suggestions.
    Navigate,
    /// That Escape opens the preview.
    Preview,
    /// That Enter submits.
    Submit,
    /// Nothing.
    Nothing,
}

impl Hint {
    /// The words of the hint, where it is made of words.
    pub open spec fn words(self) -> Seq<char> {
        match self {
            Hint::Preview => "[Esc](Preview)"@,
            Hint::Submit => "[Enter](Submit)"@,
            _ => ""@,
        }
    }

    /// The words of the hint, where it is made of words.
    pub fn message(&self) -> (message: &'static str)
        ensures
            message@ == self.words(),
    {
        match self {
            Hint::Preview => "[Esc](Preview)",
            Hint::Submit => "[Enter](Submit)",
            _ => "",
        }
    }
}

/// The selection after one step in `direction` through `count` suggestions.
/// A selection that is no index into them counts as the last one going
/// forward, and as none going backward.
pub open spec fn next_selection(direction: Direction, current: Option<nat>, count: nat) -> Option<
    nat,
> {
    match current {
        None => match direction {
            Direction::Up => Some((count - 1) as nat),
            _ => Some(0),
        },
        Some(at) => match direction {
            Direction::Tab => if at + 1 < count {
                Some(at + 1)
            } else {
                None
            },
            Direction::Down => if at + 1 < count {
                Some(at + 1)
            } else {
                Some(0)
            },
            Direction::Up => if 0 < at <= count {
                Some((at - 1) as nat)
            } else {
                Some((count - 1) as nat)
            },
        },
    }
}

/// The direction in which a key steps through the suggestions.
pub open spec fn direction_of(key: KeyPress) -> Option<Direction> {
    match key {
        KeyPress::Tab => Some(Direction::Tab),
        KeyPress::ArrowDown => Some(Direction::Down),
        KeyPress::ArrowUp => Some(Direction::Up),
        _ => None,
    }
}

/// What a validator may answer, with its reasons in words: whether it may
/// give this verdict about this text.
pub type Judge = spec_fn(String, Result<(), String>) -> bool;

/// What a source of suggestions may answer: whether it may give this answer
/// to this query.
pub type Oracle = spec_fn(String, AutocompleteResult) -> bool;

/// The suggestions that an answer of a source comes to: those that it
/// gives, and none where the source failed.
pub open spec fn listed(answer: AutocompleteResult) -> Seq<Seq<char>> {
    match answer {
        Ok(list) => texts(list@),
        Err(_) => Seq::empty(),
    }
}

/// The source is asked about `query` in the words of `asked`, and gives
/// `answer`.
pub open spec fn asks_source(
    oracle: Oracle,
    query: Seq<char>,
    asked: String,
    answer: AutocompleteResult,
) -> bool {
    asked@ == query && oracle(asked, answer)
}

/// Whether a source that is asked about `query` may give an answer that
/// comes to the suggestions `list`.
pub open spec fn source_suggests(oracle: Oracle, query: Seq<char>, list: Seq<Seq<char>>) -> bool {
    exists|asked: String, answer: AutocompleteResult| #[trigger]
        asks_source(oracle, query, asked, answer) && listed(answer) == list
}

/// Where the suggestions of a prompt come from.
#[verifier::ext_equal]
pub enum Candidates {
    /// A fixed list: those of its items that match the query are suggested.
    List(Seq<Seq<char>>),
    /// A source that is asked anew for each query.
    Source(Oracle),
}

/// An [`Input`] as the rules of a key press see it.
#[verifier::ext_equal]
pub struct InputView {
    /// The label of the prompt.
    pub label: Seq<char>,
    /// What has been entered.
    pub buffer: Buffer,
    /// Whether an empty input is refused.
    pub required: bool,
    /// The value that stands in for an empty input.
    pub default: Option<Seq<char>>,
    /// The hint shown while nothing has been entered.
    pub placeholder: Buffer,
    /// How Enter and Escape are read.
    pub multiline: Multiline,
    /// The validator that runs on every key, if there is one.
    pub live_check: Option<Judge>,
    /// The validator that runs on submission, if there is one.
    pub final_check: Option<Judge>,
    /// Where the suggestions come from, if there are any.
    pub candidates: Option<Candidates>,
    /// The suggestion that is highlighted.
    pub selection: Option<nat>,
    /// The query that was entered when stepping through the suggestions
    /// began; empty while no stepping is under way.
    pub query: Seq<char>,
    /// Whether Enter takes the first suggestion.
    pub complete_on_enter: bool,
}

impl InputView {
    /// A prompt as [`Input::new`] makes it.
    pub open spec fn fresh(label: Seq<char>) -> InputView {
        InputView {
            label,
            buffer: Buffer::empty(),
            required: true,
            default: None,
            placeholder: Buffer::empty(),
            multiline: Multiline::Disabled,
            live_check: None,
            final_check: None,
            candidates: None,
            selection: None,
            query: Seq::empty(),
            complete_on_enter: false,
        }
    }

    /// Whether the suggestions are fixed by the query: they are, unless a
    /// source is asked for them.
    pub open spec fn fixed(self) -> bool {
        !(self.candidates matches Some(Candidates::Source(_)))
    }

    /// The suggestions for `query` where they are fixed: the items of the
    /// list that match it.
    pub open spec fn suggestions(self, query: Seq<char>) -> Seq<Seq<char>> {
        match self.candidates {
            Some(Candidates::List(list)) => matching(query, list),
            _ => Seq::empty(),
        }
    }

    /// Whether `list` holds the suggestions for `query`. An empty query has
    /// none. A fixed list suggests its items that match the query; a source
    /// suggests what it answers when it is asked about the query.
    pub open spec fn suggests(self, query: Seq<char>, list: Seq<Seq<char>>) -> bool {
        if query.len() == 0 {
            list == Seq::<Seq<char>>::empty()
        } else {
            match self.candidates {
                Some(Candidates::Source(oracle)) => source_suggests(oracle, query, list),
                _ => list == self.suggestions(query),
            }
        }
    }

    /// The selection, if there is one, is an index into the suggestions that
    /// the fixed list gives for the pinned query.
    pub open spec fn selects_a_suggestion(self) -> bool {
        self.selection matches Some(at) ==> at < self.suggestions(self.query).len()
    }

    /// Both cursors are within their texts, and where the suggestions are
    /// fixed, the selection, if there is one, is an index into the
    /// suggestions for the pinned query.
    pub open spec fn valid(self) -> bool {
        &&& self.buffer.valid()
        &&& self.placeholder.valid()
        &&& self.fixed() ==> self.selects_a_suggestion()
    }

    /// The query that the suggestions are drawn for: the pinned one, or what
    /// has been entered while none is pinned.
    pub open spec fn filter_query(self) -> Seq<char> {
        if self.query.len() == 0 {
            self.buffer.text
        } else {
            self.query
        }
    }

    /// The prompt with `text` in place of what was entered.
    pub open spec fn holding(self, text: Seq<char>) -> InputView {
        InputView { buffer: Buffer::empty().extend(text), ..self }
    }

    /// One step through the suggestions `list`. Without a suggestion
    /// nothing changes. Otherwise the query is pinned, the selection moves,
    /// and the suggestion it lands on replaces what was entered.
    pub open spec fn cycle(self, direction: Direction, list: Seq<Seq<char>>) -> InputView {
        let pinned = self.filter_query();
        if list.len() == 0 {
            self
        } else {
            let selection = next_selection(direction, self.selection, list.len());
            let moved = InputView { query: pinned, selection, ..self };
            match selection {
                Some(at) => moved.holding(list[at as int]),
                None => moved,
            }
        }
    }

    /// The prompt with no query pinned and no suggestion highlighted.
    pub open spec fn released(self) -> InputView {
        InputView { selection: None, query: Seq::empty(), ..self }
    }

    /// Whether `key` asks for submission.
    pub open spec fn submits(self, key: KeyPress) -> bool {
        key is Enter && !(self.multiline is Editing)
    }

    /// What a key other than a step through the suggestions does to the
    /// prompt: Enter breaks the line while a multiline input is edited; in the
    /// preview a typed character and Backspace edit the text; elsewhere they
    /// end the stepping through the suggestions.
    pub open spec fn edited(self, key: KeyPress) -> InputView {
        match key {
            KeyPress::Enter => if self.multiline is Editing {
                InputView { buffer: self.buffer.insert('\n'), ..self }
            } else {
                self
            },
            KeyPress::Backspace => if self.multiline is Preview {
                InputView { buffer: self.buffer.delete_left(), ..self }
            } else {
                self.released()
            },
            _ => match key.typed() {
                Some(chr) => if self.multiline is Preview {
                    InputView { buffer: self.buffer.insert(chr), ..self }
                } else {
                    self.released()
                },
                None => self,
            },
        }
    }

    /// The first of the suggestions `list` for what was entered takes its
    /// place, where this is asked for, nothing is highlighted and there is a
    /// suggestion.
    pub open spec fn completed(self, list: Seq<Seq<char>>) -> InputView {
        if self.complete_on_enter && self.selection is None && list.len() > 0 {
            self.holding(list[0])
        } else {
            self
        }
    }

    /// The preview of a multiline input goes back to editing.
    pub open spec fn resumed(self) -> InputView {
        if self.multiline is Preview {
            InputView { multiline: Multiline::Editing, ..self }
        } else {
            self
        }
    }

    /// The default value stands in for an empty input.
    pub open spec fn defaulted(self) -> InputView {
        match self.default {
            Some(default) if self.buffer.text.len() == 0 => InputView {
                buffer: self.buffer.extend(default),
                ..self
            },
            _ => self,
        }
    }

    /// What the line editing of the host does with `key` before the prompt
    /// sees it: a typed character goes in at the cursor and Backspace removes
    /// the character before it. The preview of a multiline input takes no
    /// line editing.
    pub open spec fn routed(self, key: KeyPress) -> InputView {
        if self.multiline is Preview {
            self
        } else {
            match key {
                KeyPress::Backspace => InputView { buffer: self.buffer.delete_left(), ..self },
                _ => match key.typed() {
                    Some(chr) => InputView { buffer: self.buffer.insert(chr), ..self },
                    None => self,
                },
            }
        }
    }

    /// Whether `list` holds the suggestions that are listed below the input:
    /// those for the pinned query, or for what has been entered, and none
    /// unless the prompt is active.
    pub open spec fn shows(self, active: bool, list: Seq<Seq<char>>) -> bool {
        if active {
            self.suggests(self.filter_query(), list)
        } else {
            list == Seq::<Seq<char>>::empty()
        }
    }

    /// Whether the suggestion in row `at` of the list is the highlighted one.
    pub open spec fn highlights(self, at: nat) -> bool {
        self.selection == Some(at)
    }

    /// Whether the input line shows the placeholder: it does while nothing
    /// has been entered.
    pub open spec fn shows_placeholder(self) -> bool {
        self.buffer.text.len() == 0
    }

    /// The hint in the footer: how to step through the suggestions while
    /// some are listed, else what Escape or Enter does to a multiline input.
    pub open spec fn hint(self, listed: bool) -> Hint {
        if listed {
            Hint::Navigate
        } else {
            match self.multiline {
                Multiline::Editing => Hint::Preview,
                Multiline::Preview => Hint::Submit,
                Multiline::Disabled => Hint::Nothing,
            }
        }
    }

    /// The prompt made ready for its first key. With a default value, a
    /// multiline input starts in the preview, and where no placeholder was
    /// set, the default value is shown in its place, marked as the default.
    pub open spec fn prepared(self) -> InputView {
        match self.default {
            Some(default) => InputView {
                placeholder: if self.placeholder.text.len() == 0 {
                    self.placeholder.extend(default).extend(" (default)"@)
                } else {
                    self.placeholder
                },
                multiline: if self.multiline is Editing {
                    Multiline::Preview
                } else {
                    self.multiline
                },
                ..self
            },
            None => self,
        }
    }

    /// The prompt with `list` as its fixed list of candidates. A selection
    /// that is an index into what the new list suggests for the pinned query
    /// stays, with the pinned query; one that is not is given up, and the
    /// pinned query with it.
    pub open spec fn with_list(self, list: Seq<Seq<char>>) -> InputView {
        let set = InputView { candidates: Some(Candidates::List(list)), ..self };
        if set.selects_a_suggestion() {
            set
        } else {
            set.released()
        }
    }

    /// The query for which `key` needs the suggestions, if it needs any: a
    /// step through the suggestions needs those for the pinned query, or for
    /// what was entered; Enter that may take the first suggestion needs those
    /// for what was entered.
    pub open spec fn asks(self, key: KeyPress) -> Option<Seq<char>> {
        if self.candidates is Some && direction_of(key) is Some {
            Some(self.filter_query())
        } else if self.submits(key) && self.complete_on_enter && self.selection is None {
            Some(self.buffer.text)
        } else {
            None
        }
    }

    /// Whether `list` holds the suggestions that `key` needs; the empty list
    /// where it needs none.
    pub open spec fn answered(self, key: KeyPress, list: Seq<Seq<char>>) -> bool {
        match self.asks(key) {
            Some(query) => self.suggests(query, list),
            None => list == Seq::<Seq<char>>::empty(),
        }
    }

    /// The prompt after `key`, and what is left to decide, where `list` holds
    /// the suggestions that the key needs.
    ///
    /// A step through the suggestions comes first and ends the event. Then
    /// comes Escape, which opens the preview of a multiline input that is
    /// being edited. Any other key edits, then on a submission takes the first
    /// suggestion, leaves the preview, and lets the default stand in for an
    /// empty input.
    pub open spec fn step(self, key: KeyPress, list: Seq<Seq<char>>) -> (InputView, Progress) {
        if self.candidates is Some && direction_of(key) is Some {
            (self.cycle(direction_of(key)->0, list), Progress::Absorbed)
        } else if key is Escape && self.multiline is Editing {
            (InputView { multiline: Multiline::Preview, ..self }, Progress::Previewing)
        } else if self.submits(key) {
            let taken = self.edited(key).completed(list).resumed();
            if taken.buffer.text.len() == 0 && taken.default is None && taken.required {
                (taken, Progress::Missing)
            } else {
                (taken.defaulted(), Progress::Pending { submit: true })
            }
        } else {
            (self.edited(key).resumed(), Progress::Pending { submit: false })
        }
    }

    /// Whether `key` can lead from this prompt to `next` and leave
    /// `progress` to decide: it can with the suggestions that the key needs.
    pub open spec fn steps_to(self, key: KeyPress, next: InputView, progress: Progress) -> bool {
        exists|list: Seq<Seq<char>>|
            self.answered(key, list) && #[trigger] self.step(key, list) == (next, progress)
    }

    /// The suggestions that `key` needs, where they are fixed.
    pub open spec fn fixed_answer(self, key: KeyPress) -> Seq<Seq<char>> {
        match self.asks(key) {
            Some(query) => self.suggestions(query),
            None => Seq::empty(),
        }
    }

    /// The prompt after `key`, and what is left to decide, where the
    /// suggestions are fixed.
    pub open spec fn step_fixed(self, key: KeyPress) -> (InputView, Progress) {
        self.step(key, self.fixed_answer(key))
    }
}

} // verus!
