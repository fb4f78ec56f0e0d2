//! What holds of a prompt whatever keys are pressed.

use crate::input::verdict::{
    input_required, live_accepts, live_objection, possible, reported, settled, settled_on,
    submitted,
};
use crate::autocomplete::AutocompleteResult;
use crate::input::view::{
    asks_source, direction_of, listed, next_selection, Candidates, Direction, InputView, Progress,
};
use crate::prompt::interaction::{KeyPress, Outcome};
use vstd::prelude::*;

verus! {

/// The selection after `presses` steps in `direction` through `count`
/// suggestions, begun at `start`.
pub open spec fn stepped(direction: Direction, start: Option<nat>, count: nat, presses: nat) -> Option<
    nat,
>
    decreases presses,
{
    if presses == 0 {
        start
    } else {
        next_selection(direction, stepped(direction, start, count, (presses - 1) as nat), count)
    }
}

/// Tab, begun with nothing selected, visits the suggestions in their order,
/// selects nothing after the last one, and then starts again at the first.
pub proof fn lemma_tab_visits_in_order(count: nat, presses: nat)
    requires
        count > 0,
    ensures
        1 <= presses <= count ==> stepped(Direction::Tab, None, count, presses) == Some(
            (presses - 1) as nat,
        ),
        presses == count + 1 ==> stepped(Direction::Tab, None, count, presses) == None::<nat>,
        presses == count + 2 ==> stepped(Direction::Tab, None, count, presses) == Some(0nat),
    decreases presses,
{
    if presses > 0 {
        lemma_tab_visits_in_order(count, (presses - 1) as nat);
    }
}

/// ArrowDown and ArrowUp always select a suggestion, and go around in a
/// circle: down from the last one leads to the first, up from the first one
/// to the last, and each undoes the other.
pub proof fn lemma_arrows_go_around(current: Option<nat>, count: nat)
    requires
        count > 0,
        current matches Some(at) ==> at < count,
    ensures
        next_selection(Direction::Down, current, count) == Some(
            match current {
                None => 0nat,
                Some(at) => (((at + 1) as int) % (count as int)) as nat,
            },
        ),
        next_selection(Direction::Up, current, count) == Some(
            match current {
                None => (count - 1) as nat,
                Some(at) => (((at + count - 1) as int) % (count as int)) as nat,
            },
        ),
        current is Some ==> next_selection(
            Direction::Up,
            next_selection(Direction::Down, current, count),
            count,
        ) == current,
        current is Some ==> next_selection(
            Direction::Down,
            next_selection(Direction::Up, current, count),
            count,
        ) == current,
{
    if let Some(at) = current {
        if at + 1 < count {
            assert(((at + 1) as int) % (count as int) == at + 1) by (nonlinear_arith)
                requires
                    0 <= at + 1 < count,
            ;
        } else {
            assert(((at + 1) as int) % (count as int) == 0) by (nonlinear_arith)
                requires
                    at + 1 == count,
                    count > 0,
            ;
        }
        if at > 0 {
            assert(((at + count - 1) as int) % (count as int) == at - 1) by (nonlinear_arith)
                requires
                    0 < at < count,
            ;
        } else {
            assert(((at + count - 1) as int) % (count as int) == count - 1) by (nonlinear_arith)
                requires
                    at == 0,
                    count > 0,
            ;
        }
    }
}

/// However often ArrowDown or ArrowUp is pressed, a suggestion stays
/// selected, and it is one of those listed.
pub proof fn lemma_arrows_never_deselect(
    direction: Direction,
    start: Option<nat>,
    count: nat,
    presses: nat,
)
    requires
        count > 0,
        presses > 0,
        !(direction is Tab),
        start matches Some(at) ==> at < count,
    ensures
        stepped(direction, start, count, presses) matches Some(at) && at < count,
    decreases presses,
{
    if presses > 1 {
        lemma_arrows_never_deselect(direction, start, count, (presses - 1) as nat);
    }
    assert(stepped(direction, start, count, presses) == next_selection(
        direction,
        stepped(direction, start, count, (presses - 1) as nat),
        count,
    ));
}

/// Where the suggestions are fixed, they are the suggestions that the
/// prompt's list gives, and a key leads to one prompt only.
pub proof fn lemma_fixed_suggestions(prompt: InputView, key: KeyPress)
    requires
        prompt.fixed(),
    ensures
        forall|query: Seq<char>, list: Seq<Seq<char>>| #[trigger]
            prompt.suggests(query, list) <==> list == prompt.suggestions(query),
        forall|list: Seq<Seq<char>>| #[trigger]
            prompt.answered(key, list) <==> list == prompt.fixed_answer(key),
        forall|next: InputView, progress: Progress| #[trigger]
            prompt.steps_to(key, next, progress) <==> (next, progress) == prompt.step_fixed(key),
{
    assert forall|query: Seq<char>, list: Seq<Seq<char>>| #[trigger]
        prompt.suggests(query, list) <==> list == prompt.suggestions(query) by {
        if query.len() == 0 {
            assert(prompt.suggestions(query) == Seq::<Seq<char>>::empty());
        }
    }
    assert forall|next: InputView, progress: Progress| #[trigger]
        prompt.steps_to(key, next, progress) <==> (next, progress) == prompt.step_fixed(key) by {
        if (next, progress) == prompt.step_fixed(key) {
            assert(prompt.answered(key, prompt.fixed_answer(key)));
            assert(prompt.step(key, prompt.fixed_answer(key)) == (next, progress));
        }
    }
}

/// A source that fails has no suggestions, and so it never stands in the
/// way: a step through the suggestions changes nothing, and the prompt stays
/// as it is for the keys that follow.
pub proof fn lemma_failing_source_blocks_nothing(
    prompt: InputView,
    key: KeyPress,
    list: Seq<Seq<char>>,
)
    requires
        prompt.candidates matches Some(Candidates::Source(oracle)) && forall|
            asked: String,
            answer: AutocompleteResult,
        | #[trigger]
            oracle(asked, answer) ==> answer is Err,
        direction_of(key) is Some,
        prompt.answered(key, list),
    ensures
        list == Seq::<Seq<char>>::empty(),
        prompt.step(key, list) == (prompt, Progress::Absorbed),
{
    let oracle = prompt.candidates->0->Source_0;
    let query = prompt.filter_query();
    if query.len() > 0 {
        let (asked, answer) = choose|asked: String, answer: AutocompleteResult| #[trigger]
            asks_source(oracle, query, asked, answer) && listed(answer) == list;
        assert(oracle(asked, answer));
    }
}

/// Every key leaves the prompt in order: the cursors stay within their texts
/// and, where the suggestions are fixed, the selection, if there is one, is
/// an index into the suggestions for the pinned query.
pub proof fn lemma_step_keeps_valid(prompt: InputView, key: KeyPress, list: Seq<Seq<char>>)
    requires
        prompt.valid(),
        prompt.answered(key, list),
    ensures
        prompt.step(key, list).0.valid(),
        prompt.routed(key).valid(),
{
}

/// Whatever the suggestions are, a step through them highlights one of them
/// or none, and puts the highlighted one into the buffer.
pub proof fn lemma_cycle_selects_within(
    prompt: InputView,
    direction: Direction,
    list: Seq<Seq<char>>,
)
    requires
        list.len() > 0,
    ensures
        prompt.cycle(direction, list).selection matches Some(at) ==> at < list.len()
            && prompt.cycle(direction, list).buffer.text == list[at as int],
        prompt.cycle(direction, list).selection is None ==> direction is Tab && prompt.cycle(
            direction,
            list,
        ).buffer == prompt.buffer,
{
}

/// The prompt after `presses` presses of `key`, each of which finds the
/// suggestions `list`.
pub open spec fn pressed(
    prompt: InputView,
    key: KeyPress,
    presses: nat,
    list: Seq<Seq<char>>,
) -> InputView
    decreases presses,
{
    if presses == 0 {
        prompt
    } else {
        pressed(prompt, key, (presses - 1) as nat, list).step(key, list).0
    }
}

/// Tab after Tab, begun with nothing selected and no query pinned, puts one
/// suggestion for what was entered after the other into the buffer, in their
/// order, for as long as the suggestions for it are `list`. The Tab after the
/// last suggestion selects nothing and leaves the last suggestion in the
/// buffer; the Tab after that begins again with the first. The query stays
/// pinned to what was entered at first.
pub proof fn lemma_tab_walks_the_suggestions(
    prompt: InputView,
    list: Seq<Seq<char>>,
    presses: nat,
)
    requires
        prompt.candidates is Some,
        prompt.selection is None,
        prompt.query.len() == 0,
        prompt.buffer.text.len() > 0,
        list.len() > 0,
        1 <= presses <= list.len() + 2,
    ensures
        ({
            let after = pressed(prompt, KeyPress::Tab, presses, list);
            &&& after.query == prompt.buffer.text
            &&& after.candidates == prompt.candidates
            &&& after.selection == stepped(Direction::Tab, None, list.len(), presses)
            &&& presses <= list.len() ==> after.selection == Some((presses - 1) as nat)
                && after.buffer.text == list[presses - 1]
            &&& presses == list.len() + 1 ==> after.selection is None && after.buffer.text
                == list.last()
            &&& presses == list.len() + 2 ==> after.selection == Some(0nat) && after.buffer.text
                == list[0]
        }),
    decreases presses,
{
    if presses > 1 {
        lemma_tab_walks_the_suggestions(prompt, list, (presses - 1) as nat);
        lemma_tab_visits_in_order(list.len(), (presses - 1) as nat);
    }
    lemma_tab_visits_in_order(list.len(), presses);
    let before = pressed(prompt, KeyPress::Tab, (presses - 1) as nat, list);
    assert(pressed(prompt, KeyPress::Tab, presses, list) == before.cycle(Direction::Tab, list));
}

/// ArrowDown after ArrowDown, or ArrowUp after ArrowUp, always leaves a
/// suggestion highlighted and in the buffer, for as long as the suggestions
/// for the query are `list`: the query that was pinned, or what was entered
/// when the first key came.
pub proof fn lemma_arrows_keep_a_selection(
    prompt: InputView,
    key: KeyPress,
    list: Seq<Seq<char>>,
    presses: nat,
)
    requires
        prompt.candidates is Some,
        key is ArrowDown || key is ArrowUp,
        prompt.filter_query().len() > 0,
        list.len() > 0,
        presses >= 1,
    ensures
        ({
            let after = pressed(prompt, key, presses, list);
            &&& after.query == prompt.filter_query()
            &&& after.candidates == prompt.candidates
            &&& after.selection == stepped(
                direction_of(key)->0,
                prompt.selection,
                list.len(),
                presses,
            )
            &&& after.selection matches Some(at) && at < list.len() && after.buffer.text
                == list[at as int]
        }),
    decreases presses,
{
    let direction = direction_of(key)->0;
    if presses > 1 {
        lemma_arrows_keep_a_selection(prompt, key, list, (presses - 1) as nat);
    }
    let before = pressed(prompt, key, (presses - 1) as nat, list);
    assert(pressed(prompt, key, presses, list) == before.cycle(direction, list));
    assert(stepped(direction, prompt.selection, list.len(), presses) == next_selection(
        direction,
        stepped(direction, prompt.selection, list.len(), (presses - 1) as nat),
        list.len(),
    ));
}

/// A typed character or Backspace ends the stepping through the
/// suggestions: no query stays pinned and nothing stays highlighted. This
/// holds wherever the key does not edit the preview of a multiline input.
pub proof fn lemma_edit_ends_cycling(prompt: InputView, key: KeyPress, list: Seq<Seq<char>>)
    requires
        key is Backspace || key.typed() is Some,
        !(prompt.multiline is Preview),
    ensures
        prompt.asks(key) is None,
        prompt.step(key, list).0 == prompt.released(),
        prompt.step(key, list).0.selection is None,
        prompt.step(key, list).0.query == Seq::<char>::empty(),
        prompt.step(key, list).1 == (Progress::Pending { submit: false }),
{
}

/// In the preview of a multiline input a typed character and Backspace edit
/// the text, go back to editing, and leave the suggestions as they are.
pub proof fn lemma_preview_edit_keeps_cycling(
    prompt: InputView,
    key: KeyPress,
    list: Seq<Seq<char>>,
)
    requires
        key is Backspace || key.typed() is Some,
        prompt.multiline is Preview,
    ensures
        prompt.step(key, list).0.selection == prompt.selection,
        prompt.step(key, list).0.query == prompt.query,
        prompt.step(key, list).0.multiline is Editing,
        prompt.step(key, list).0.buffer == match key.typed() {
            Some(chr) => prompt.buffer.insert(chr),
            None => prompt.buffer.delete_left(),
        },
        prompt.step(key, list).1 == (Progress::Pending { submit: false }),
{
}

/// An empty input is submitted by Enter. Without a default value it is
/// refused where an input is required. With a default value, the default is
/// what the validators and the parser get to see; where no validator refuses
/// it, the value that the parser reads from it is submitted.
pub proof fn lemma_empty_submission<T>(prompt: InputView, list: Seq<Seq<char>>, value: T)
    requires
        prompt.buffer.text.len() == 0,
        !(prompt.multiline is Editing),
        prompt.answered(KeyPress::Enter, list),
    ensures
        prompt.default is None && prompt.required ==> prompt.step(KeyPress::Enter, list).1
            == Progress::Missing && forall|outcome: Outcome<T>|
            reported(Progress::Missing, prompt.step(KeyPress::Enter, list).0, outcome) ==> outcome
                == Outcome::<T>::Error(input_required()),
        prompt.default matches Some(default) ==> prompt.step(KeyPress::Enter, list).0.buffer.text
            == default && prompt.step(KeyPress::Enter, list).1 == (Progress::Pending {
            submit: true,
        }),
        submitted(Ok(()), Some(value)) == Outcome::Submit(value),
{
}

/// Whatever the validators and the parser answer, an edit never submits, a
/// submission never leaves the prompt just active, nothing cancels, and a
/// refusal needs someone to refuse.
pub proof fn lemma_settled_is_possible<T>(prompt: InputView, submit: bool, outcome: Outcome<T>)
    requires
        settled(prompt, submit, outcome),
    ensures
        possible(prompt, submit, outcome),
{
}

/// A text that the validator on every key cannot accept is refused at once,
/// on an edit as on a submission.
pub proof fn lemma_live_refusal_is_reported<T>(prompt: InputView, submit: bool, outcome: Outcome<T>)
    requires
        settled(prompt, submit, outcome),
        prompt.live_check matches Some(judge) && forall|text: String|
            text@ == prompt.buffer.text ==> !#[trigger] judge(text, Ok(())),
    ensures
        outcome is Error,
{
    let text = choose|text: String|
        text@ == prompt.buffer.text && #[trigger] settled_on(prompt, text, submit, outcome);
    assert(!live_accepts(prompt, text));
}

/// A submission that the validator on submission cannot accept is refused,
/// and so no value is submitted.
pub proof fn lemma_final_refusal_is_reported<T>(prompt: InputView, outcome: Outcome<T>)
    requires
        settled(prompt, true, outcome),
        prompt.final_check matches Some(judge) && forall|text: String|
            text@ == prompt.buffer.text ==> !#[trigger] judge(text, Ok(())),
    ensures
        outcome is Error,
{
    let text = choose|text: String|
        text@ == prompt.buffer.text && #[trigger] settled_on(prompt, text, true, outcome);
    let judge = prompt.final_check->0;
    if !live_objection(prompt, text, outcome) {
        let (verdict, value) = choose|verdict: Result<(), String>, value: Option<T>|
            judge(text, verdict) && #[trigger] submitted(verdict, value) == outcome;
        if let Ok(unit) = verdict {
            assert(verdict == Ok::<(), String>(unit) && unit == ());
        }
    }
}

} // verus!
