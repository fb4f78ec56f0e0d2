use cliclack::input::{live_feedback, submission, Hint, Progress};
use cliclack::{Event, Input, KeyPress, State};
use console::Key;

fn list(names: &[&str]) -> Vec<String> {
    names.iter().map(|name| name.to_string()).collect()
}

#[test]
fn keys_are_told_apart() {
    assert_eq!(Event::Key(Key::Char('a')).key_press(), KeyPress::Char('a'));
    assert_eq!(Event::Key(Key::Char('\n')).key_press(), KeyPress::Char('\n'));
    assert_eq!(Event::Key(Key::Enter).key_press(), KeyPress::Enter);
    assert_eq!(Event::Key(Key::Escape).key_press(), KeyPress::Escape);
    assert_eq!(Event::Key(Key::Backspace).key_press(), KeyPress::Backspace);
    assert_eq!(Event::Key(Key::Tab).key_press(), KeyPress::Tab);
    assert_eq!(Event::Key(Key::ArrowUp).key_press(), KeyPress::ArrowUp);
    assert_eq!(Event::Key(Key::ArrowDown).key_press(), KeyPress::ArrowDown);
    for key in [
        Key::Unknown,
        Key::UnknownEscSeq(vec!['[', 'Z']),
        Key::ArrowLeft,
        Key::ArrowRight,
        Key::Home,
        Key::End,
        Key::BackTab,
        Key::Alt,
        Key::Del,
        Key::Shift,
        Key::Insert,
        Key::PageUp,
        Key::PageDown,
        Key::CtrlC,
    ] {
        assert_eq!(Event::Key(key).key_press(), KeyPress::Other);
    }
}

#[test]
fn only_characters_that_are_no_controls_are_typed() {
    assert_eq!(KeyPress::Char('a').printable(), Some('a'));
    assert_eq!(KeyPress::Char(' ').printable(), Some(' '));
    assert_eq!(KeyPress::Char('~').printable(), Some('~'));
    assert_eq!(KeyPress::Char('\u{80}').printable(), Some('\u{80}'));
    assert_eq!(KeyPress::Char('é').printable(), Some('é'));
    assert_eq!(KeyPress::Char('\u{0}').printable(), None);
    assert_eq!(KeyPress::Char('\n').printable(), None);
    assert_eq!(KeyPress::Char('\u{1f}').printable(), None);
    assert_eq!(KeyPress::Char('\u{7f}').printable(), None);
    assert_eq!(KeyPress::Enter.printable(), None);
    assert_eq!(KeyPress::Other.printable(), None);
    for code in 0u32..=0x7f {
        let chr = char::from_u32(code).unwrap();
        assert_eq!(KeyPress::Char(chr).printable().is_none(), chr.is_ascii_control());
    }
}

#[test]
fn a_key_leaves_its_question_to_be_decided() {
    let mut input = Input::new("Name");
    assert_eq!(input.advance(KeyPress::Char('a')), Progress::Pending { submit: false });
    assert_eq!(input.advance(KeyPress::Other), Progress::Pending { submit: false });
    assert_eq!(input.advance(KeyPress::Tab), Progress::Pending { submit: false });
    assert_eq!(input.advance(KeyPress::Escape), Progress::Pending { submit: false });
    assert_eq!(input.advance(KeyPress::Enter), Progress::Missing);
    input.route(KeyPress::Char('a'));
    assert_eq!(input.advance(KeyPress::Enter), Progress::Pending { submit: true });

    let mut input = Input::new("Name").autocomplete(list(&["a"]));
    assert_eq!(input.advance(KeyPress::Tab), Progress::Absorbed);
    assert_eq!(input.advance(KeyPress::ArrowUp), Progress::Absorbed);
    assert_eq!(input.advance(KeyPress::ArrowDown), Progress::Absorbed);
    assert_eq!(input.advance(KeyPress::Enter), Progress::Missing);

    let mut input = Input::new("Name").multiline();
    assert_eq!(input.advance(KeyPress::Enter), Progress::Pending { submit: false });
    assert_eq!(input.text(), "\n");
    assert_eq!(input.advance(KeyPress::Escape), Progress::Previewing);
    assert_eq!(input.advance(KeyPress::Enter), Progress::Pending { submit: true });
    assert_eq!(input.advance(KeyPress::Escape), Progress::Previewing);
    assert_eq!(input.advance(KeyPress::Escape), Progress::Pending { submit: false });
}

#[test]
fn an_empty_default_is_no_missing_input() {
    let mut input = Input::new("Name").default_input("");
    assert_eq!(input.advance(KeyPress::Enter), Progress::Pending { submit: true });
    assert_eq!(input.text(), "");
    assert!(matches!(input.on::<String>(&Event::Key(Key::Enter)), State::Submit(value) if value.is_empty()));
}

#[test]
fn routing_edits_the_line_outside_the_preview() {
    let mut input = Input::new("Text").multiline();
    input.route(KeyPress::Char('a'));
    input.route(KeyPress::Char('b'));
    input.route(KeyPress::Char('\u{7}'));
    input.route(KeyPress::Enter);
    input.route(KeyPress::Tab);
    input.route(KeyPress::Other);
    assert_eq!(input.text(), "ab");
    input.route(KeyPress::Backspace);
    assert_eq!(input.text(), "a");
    input.advance(KeyPress::Escape);
    input.route(KeyPress::Char('c'));
    input.route(KeyPress::Backspace);
    assert_eq!(input.text(), "a");
}

#[test]
fn the_hint_follows_the_suggestions_and_the_mode() {
    let input = Input::new("Name");
    assert_eq!(input.hint(false), Hint::Nothing);
    assert_eq!(input.hint(true), Hint::Navigate);

    let mut input = Input::new("Name").multiline();
    assert_eq!(input.hint(false), Hint::Preview);
    assert_eq!(input.hint(true), Hint::Navigate);
    input.advance(KeyPress::Escape);
    assert_eq!(input.hint(false), Hint::Submit);
    assert_eq!(input.hint(true), Hint::Navigate);

    assert_eq!(Hint::Navigate.message(), "");
    assert_eq!(Hint::Nothing.message(), "");
    assert_eq!(Hint::Preview.message(), "[Esc](Preview)");
    assert_eq!(Hint::Submit.message(), "[Enter](Submit)");
}

#[test]
fn live_feedback_reports_a_refusal_or_a_text_without_a_value() {
    let refused = live_feedback::<u8>(Err("no".to_string()), true);
    assert!(matches!(refused, Some(State::Error(message)) if message == "no"));
    let refused = live_feedback::<u8>(Err("no".to_string()), false);
    assert!(matches!(refused, Some(State::Error(message)) if message == "no"));
    let unreadable = live_feedback::<u8>(Ok(()), false);
    assert!(matches!(unreadable, Some(State::Error(message)) if message == "Invalid value format"));
    assert!(live_feedback::<u8>(Ok(()), true).is_none());
}

#[test]
fn a_submission_comes_to_a_value_or_a_refusal() {
    assert!(matches!(submission(Ok(()), Some(7u8)), State::Submit(7)));
    let unreadable = submission::<u8>(Ok(()), None);
    assert!(matches!(unreadable, State::Error(message) if message == "Invalid value format"));
    let refused = submission(Err("no".to_string()), Some(7u8));
    assert!(matches!(refused, State::Error(message) if message == "no"));
    let refused = submission::<u8>(Err("no".to_string()), None);
    assert!(matches!(refused, State::Error(message) if message == "no"));
}

#[test]
fn a_prompt_by_default_has_no_label_and_requires_nothing() {
    let mut input = Input::default();
    assert_eq!(input.text(), "");
    assert_eq!(input.selection(), None);
    assert_eq!(input.pinned_query(), "");
    assert_eq!(input.advance(KeyPress::Enter), Progress::Pending { submit: true });
}
