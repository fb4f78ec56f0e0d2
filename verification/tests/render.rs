use cliclack::input::{assemble, row, suggestions_of};
use cliclack::{Event, Input, State, StringCursor, Theme, ThemeState};
use console::{Key, Style};

struct Marked;

fn tag(state: &ThemeState) -> String {
    match state {
        ThemeState::Active => "active".to_string(),
        ThemeState::Cancel => "cancel".to_string(),
        ThemeState::Submit => "submit".to_string(),
        ThemeState::Error(message) => format!("error: {message}"),
    }
}

impl Theme for Marked {
    fn bar_color(&self, _state: &ThemeState) -> Style {
        Style::new().bold().force_styling(true)
    }

    fn input_style(&self, _state: &ThemeState) -> Style {
        Style::new().force_styling(false)
    }

    fn format_header(&self, state: &ThemeState, prompt: &str) -> String {
        format!("<{}> {prompt}\n", tag(state))
    }

    fn format_input(&self, _state: &ThemeState, cursor: &StringCursor) -> String {
        format!("> {}\n", cursor.to_string())
    }

    fn format_placeholder(&self, _state: &ThemeState, cursor: &StringCursor) -> String {
        format!("? {}\n", cursor.to_string())
    }

    fn format_footer_with_message(&self, _state: &ThemeState, message: &str) -> String {
        format!("-- {message}\n")
    }

    fn format_footer_with_tab(&self, _state: &ThemeState) -> String {
        "-- tab\n".to_string()
    }
}

fn bold(text: &str) -> String {
    Style::new().bold().force_styling(true).apply_to(text).to_string()
}

fn strike(input: &mut Input, key: Key) -> State<String> {
    input.handle::<String>(&Event::Key(key))
}

fn names(list: &[&str]) -> Vec<String> {
    list.iter().map(|name| name.to_string()).collect()
}

#[test]
fn an_empty_prompt_shows_its_placeholder() {
    let input = Input::new("Tea or coffee?").placeholder("Yes");
    let drawn = input.render(&State::<String>::Active, &Marked);
    assert_eq!(drawn, "<active> Tea or coffee?\n? Yes\n-- \n");
}

#[test]
fn a_prompt_without_a_placeholder_shows_an_empty_one() {
    let input = Input::new("Tea or coffee?");
    let drawn = input.render(&State::<String>::Active, &Marked);
    assert_eq!(drawn, "<active> Tea or coffee?\n? \n-- \n");
}

#[test]
fn the_default_is_shown_as_the_placeholder() {
    let mut input = Input::new("Drink").default_input("coffee");
    input.prepare();
    let drawn = input.render(&State::<String>::Active, &Marked);
    assert_eq!(drawn, "<active> Drink\n? coffee (default)\n-- \n");
}

#[test]
fn a_placeholder_wins_over_the_default() {
    let mut input = Input::new("Drink").default_input("coffee").placeholder("anything");
    input.prepare();
    let drawn = input.render(&State::<String>::Active, &Marked);
    assert_eq!(drawn, "<active> Drink\n? anything\n-- \n");
}

#[test]
fn what_was_entered_is_shown_in_place_of_the_placeholder() {
    let mut input = Input::new("Drink").placeholder("anything");
    strike(&mut input, Key::Char('t'));
    let state = strike(&mut input, Key::Char('é'));
    assert_eq!(input.render(&state, &Marked), "<active> Drink\n> té\n-- \n");
}

#[test]
fn the_state_reaches_the_theme() {
    let mut input = Input::new("Drink");
    let state = strike(&mut input, Key::Enter);
    assert_eq!(input.render(&state, &Marked), "<error: Input required> Drink\n? \n-- \n");
    strike(&mut input, Key::Char('t'));
    let state = strike(&mut input, Key::Enter);
    assert_eq!(input.render(&state, &Marked), "<submit> Drink\n> t\n-- \n");
    assert_eq!(input.render(&State::<String>::Cancel, &Marked), "<cancel> Drink\n> t\n-- \n");
}

#[test]
fn a_multiline_input_hints_at_the_preview_and_at_submission() {
    let mut input = Input::new("Text").multiline();
    let state = strike(&mut input, Key::Char('a'));
    assert_eq!(input.render(&state, &Marked), "<active> Text\n> a\n-- [Esc](Preview)\n");
    let state = strike(&mut input, Key::Escape);
    assert_eq!(input.render(&state, &Marked), "<active> Text\n> a\n-- [Enter](Submit)\n");
}

#[test]
fn the_suggestions_are_listed_below_the_footer() {
    let mut input = Input::new("Language").autocomplete(names(&["rust", "go", "ruby"]));
    let state = strike(&mut input, Key::Char('r'));
    let expected = format!(
        "<active> Language\n> r\n-- tab\n  {}  rust\n  {}  ruby\n",
        bold("│"),
        bold("│")
    );
    assert_eq!(input.render(&state, &Marked), expected);
}

#[test]
fn the_highlighted_suggestion_is_drawn_in_the_style_of_the_bar() {
    let mut input = Input::new("Language").autocomplete(names(&["rust", "go", "ruby"]));
    strike(&mut input, Key::Char('r'));
    strike(&mut input, Key::Tab);
    let state = strike(&mut input, Key::Tab);
    let expected = format!(
        "<active> Language\n> ruby\n-- tab\n  {}  rust\n  {}  {}\n",
        bold("│"),
        bold("│"),
        bold("ruby")
    );
    assert_eq!(input.render(&state, &Marked), expected);
    let state = strike(&mut input, Key::Tab);
    let expected = format!(
        "<active> Language\n> ruby\n-- tab\n  {}  rust\n  {}  ruby\n",
        bold("│"),
        bold("│")
    );
    assert_eq!(input.render(&state, &Marked), expected);
}

#[test]
fn the_suggestions_are_listed_only_while_the_prompt_is_active() {
    let mut input = Input::new("Language").autocomplete(names(&["rust", "ruby"])).multiline();
    strike(&mut input, Key::Char('r'));
    let error = State::<String>::Error("refused".to_string());
    assert_eq!(input.render(&error, &Marked), "<error: refused> Language\n> r\n-- [Esc](Preview)\n");
    let submit = State::Submit("r".to_string());
    assert_eq!(input.render(&submit, &Marked), "<submit> Language\n> r\n-- [Esc](Preview)\n");
    assert_eq!(input.render(&State::<String>::Cancel, &Marked), "<cancel> Language\n> r\n-- [Esc](Preview)\n");
}

#[test]
fn no_suggestion_means_no_list_and_no_hint_at_tab() {
    let mut input = Input::new("Language").autocomplete(names(&["rust", "ruby"]));
    let state = strike(&mut input, Key::Char('z'));
    assert_eq!(input.render(&state, &Marked), "<active> Language\n> z\n-- \n");
    let input = Input::new("Language").autocomplete(names(&["rust", "ruby"]));
    assert_eq!(input.render(&State::<String>::Active, &Marked), "<active> Language\n? \n-- \n");
}

#[test]
fn drawing_twice_gives_the_same_and_changes_nothing() {
    let mut input = Input::new("Language").autocomplete(names(&["rust", "ruby"]));
    strike(&mut input, Key::Char('r'));
    let state = strike(&mut input, Key::Tab);
    let first = input.render(&state, &Marked);
    let second = input.render(&state, &Marked);
    assert_eq!(first, second);
    assert_eq!(input.text(), "rust");
    assert_eq!(input.selection(), Some(0));
    assert_eq!(input.pinned_query(), "r");
}

#[test]
fn rows_are_laid_out_with_two_spaces_before_each_part() {
    assert_eq!(row("|", "rust"), "  |  rust");
    assert_eq!(row("", ""), "    ");
}

#[test]
fn the_parts_are_put_together_in_order() {
    let rows = names(&["one", "two", "three"]);
    assert_eq!(assemble("H".to_string(), "I", "F", &rows), "HIFone\ntwo\nthree\n");
    assert_eq!(assemble("H".to_string(), "I", "F", &names(&["one"])), "HIFone\n");
    assert_eq!(assemble("H".to_string(), "I", "F", &Vec::new()), "HIF");
    assert_eq!(assemble(String::new(), "", "", &Vec::new()), "");
}

#[test]
fn a_state_is_shown_to_the_theme_without_its_value() {
    assert!(matches!(State::<u8>::Active.theme_state(), ThemeState::Active));
    assert!(matches!(State::<u8>::Cancel.theme_state(), ThemeState::Cancel));
    assert!(matches!(State::Submit(7u8).theme_state(), ThemeState::Submit));
    assert!(matches!(State::<u8>::Error("bad".to_string()).theme_state(), ThemeState::Error(message) if message == "bad"));
}

#[test]
fn a_theme_can_be_handed_over_behind_a_reference_to_the_trait() {
    let theme: &dyn Theme = &Marked;
    let input = Input::new("Drink").placeholder("tea");
    assert_eq!(input.render(&State::<String>::Active, theme), "<active> Drink\n? tea\n-- \n");
}

#[test]
fn the_prompt_says_what_is_shown() {
    let mut input = Input::new("Language").placeholder("any").autocomplete(names(&["rust", "ruby"]));
    assert!(input.shows_placeholder());
    assert!(!input.highlights(0));
    strike(&mut input, Key::Char('r'));
    assert!(!input.shows_placeholder());
    assert!(!input.highlights(0));
    strike(&mut input, Key::ArrowUp);
    assert!(input.highlights(1));
    assert!(!input.highlights(0));
    assert!(!input.highlights(2));
    strike(&mut input, Key::Tab);
    assert!(!input.highlights(1));
    assert!(!input.highlights(0));
}

#[test]
fn the_answers_of_a_source_are_listed_as_they_come() {
    let mut input = Input::new("Language")
        .autocompletion_handler(|query: &str| vec![format!("{query}ust"), format!("{query}uby")]);
    assert_eq!(input.render(&State::<String>::Active, &Marked), "<active> Language\n? \n-- \n");
    let state = strike(&mut input, Key::Char('r'));
    let expected = format!(
        "<active> Language\n> r\n-- tab\n  {}  rust\n  {}  ruby\n",
        bold("│"),
        bold("│")
    );
    assert_eq!(input.render(&state, &Marked), expected);
    let state = strike(&mut input, Key::ArrowDown);
    let expected = format!(
        "<active> Language\n> rust\n-- tab\n  {}  {}\n  {}  ruby\n",
        bold("│"),
        bold("rust"),
        bold("│")
    );
    assert_eq!(input.render(&state, &Marked), expected);
}

#[test]
fn a_source_that_fails_leaves_the_list_away() {
    let mut input =
        Input::new("Language").autocomplete_with(|_: &str| Err("the source is down".to_string()));
    let state = strike(&mut input, Key::Char('r'));
    assert_eq!(input.render(&state, &Marked), "<active> Language\n> r\n-- \n");
}

#[test]
fn a_row_is_drawn_in_the_style_of_its_place() {
    let mut input = Input::new("Language").autocomplete(names(&["rust", "ruby"]));
    strike(&mut input, Key::Char('r'));
    strike(&mut input, Key::ArrowUp);
    let active = ThemeState::Active;
    assert_eq!(input.draw_row(&Marked, &active, 0, "rust"), format!("  {}  rust", bold("│")));
    assert_eq!(input.draw_row(&Marked, &active, 1, "ruby"), format!("  {}  {}", bold("│"), bold("ruby")));
    assert_eq!(input.row_style(&Marked, &active, 1).apply_to("x").to_string(), bold("x"));
    assert_eq!(input.row_style(&Marked, &active, 0).apply_to("x").to_string(), "x");
}

#[test]
fn an_answer_comes_to_its_suggestions_or_to_none() {
    assert_eq!(suggestions_of(Ok(names(&["a", "b"]))), names(&["a", "b"]));
    assert_eq!(suggestions_of(Ok(Vec::new())), Vec::<String>::new());
    assert_eq!(suggestions_of(Err("down".to_string())), Vec::<String>::new());
}
