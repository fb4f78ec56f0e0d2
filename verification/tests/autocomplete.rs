use cliclack::filter::{filter_strings, occurs, starts_at};
use cliclack::{Autocomplete, AutocompleteResult};

fn languages() -> Vec<String> {
    vec!["rust".to_string(), "Ruby".to_string(), "go".to_string(), "TypeScript".to_string()]
}

#[test]
fn filter_keeps_the_candidates_that_contain_the_query() {
    assert_eq!(filter_strings("ru", &languages()), vec!["rust".to_string(), "Ruby".to_string()]);
    assert_eq!(filter_strings("script", &languages()), vec!["TypeScript".to_string()]);
    assert_eq!(filter_strings("t", &languages()), vec!["rust".to_string(), "TypeScript".to_string()]);
}

#[test]
fn filter_ignores_letter_case_on_both_sides() {
    assert_eq!(filter_strings("RU", &languages()), vec!["rust".to_string(), "Ruby".to_string()]);
    assert_eq!(filter_strings("typescript", &languages()), vec!["TypeScript".to_string()]);
    assert_eq!(filter_strings("ÉT", &vec!["été".to_string()]), vec!["été".to_string()]);
}

#[test]
fn filter_gives_nothing_for_an_empty_query() {
    assert!(filter_strings("", &languages()).is_empty());
}

#[test]
fn filter_gives_nothing_without_a_match() {
    assert!(filter_strings("zig", &languages()).is_empty());
    assert!(filter_strings("rusty", &languages()).is_empty());
    assert!(filter_strings("r", &Vec::new()).is_empty());
}

#[test]
fn filter_finds_the_query_at_either_end_and_as_the_whole() {
    assert_eq!(filter_strings("go", &languages()), vec!["go".to_string()]);
    assert_eq!(filter_strings("st", &languages()), vec!["rust".to_string()]);
    assert_eq!(filter_strings("ty", &languages()), vec!["TypeScript".to_string()]);
}

#[test]
fn filter_keeps_candidates_that_occur_twice() {
    let twice = vec!["ab".to_string(), "b".to_string(), "ab".to_string()];
    assert_eq!(filter_strings("a", &twice), vec!["ab".to_string(), "ab".to_string()]);
}

#[test]
fn a_fixed_list_suggests_its_matches() {
    let mut source = languages();
    assert_eq!(source.get_suggestions("r"), Ok(vec!["rust".to_string(), "Ruby".to_string(), "TypeScript".to_string()]));
    assert_eq!(source.get_suggestions(""), Ok(Vec::new()));
    assert_eq!(source, languages());
}

#[test]
fn a_fixed_list_completes_with_the_highlighted_suggestion() {
    let mut source = languages();
    assert_eq!(source.get_completion("r", Some("rust".to_string())), Some("rust".to_string()));
    assert_eq!(source.get_completion("r", None), None);
}

#[test]
fn a_function_is_asked_for_its_suggestions() {
    let mut source = |input: &str| -> AutocompleteResult {
        if input == "fail" {
            Err("no source".to_string())
        } else {
            Ok(vec![format!("{input}1"), format!("{input}2")])
        }
    };
    assert_eq!(source.get_suggestions("a"), Ok(vec!["a1".to_string(), "a2".to_string()]));
    assert_eq!(source.get_suggestions("fail"), Err("no source".to_string()));
    assert_eq!(source.get_completion("a", Some("a2".to_string())), Some("a2".to_string()));
    assert_eq!(source.get_completion("a", None), None);
}

struct Countdown {
    left: usize,
}

impl Autocomplete for Countdown {
    fn get_suggestions(&mut self, input: &str) -> AutocompleteResult {
        if self.left == 0 {
            return Err("spent".to_string());
        }
        self.left -= 1;
        Ok(vec![input.to_uppercase()])
    }

    fn get_completion(&mut self, input: &str, highlighted: Option<String>) -> Option<String> {
        highlighted.or_else(|| Some(input.to_string()))
    }
}

#[test]
fn a_source_of_ones_own_can_keep_state() {
    let mut source = Countdown { left: 1 };
    assert_eq!(source.get_suggestions("ab"), Ok(vec!["AB".to_string()]));
    assert_eq!(source.get_suggestions("ab"), Err("spent".to_string()));
    assert_eq!(source.get_completion("ab", None), Some("ab".to_string()));
}

fn letters(text: &str) -> Vec<char> {
    text.chars().collect()
}

#[test]
fn a_text_is_found_where_it_stands() {
    assert!(occurs(&letters("rust"), &letters("r")));
    assert!(occurs(&letters("rust"), &letters("st")));
    assert!(occurs(&letters("rust"), &letters("rust")));
    assert!(occurs(&letters("rust"), &letters("")));
    assert!(occurs(&letters(""), &letters("")));
    assert!(occurs(&letters("aab"), &letters("ab")));
    assert!(!occurs(&letters("javascript"), &letters("ru")));
    assert!(!occurs(&letters("rust"), &letters("rusty")));
    assert!(!occurs(&letters("rust"), &letters("ts")));
    assert!(!occurs(&letters(""), &letters("a")));
}

#[test]
fn a_text_starts_at_an_offset_or_does_not() {
    assert!(starts_at(&letters("rust"), &letters("us"), 1));
    assert!(!starts_at(&letters("rust"), &letters("us"), 0));
    assert!(!starts_at(&letters("rust"), &letters("us"), 2));
    assert!(starts_at(&letters("rust"), &letters(""), 4));
    assert!(starts_at(&letters("日本語"), &letters("語"), 2));
}

#[test]
fn a_longer_query_keeps_or_drops_suggestions() {
    let all = languages();
    let short = filter_strings("r", &all);
    let long = filter_strings("ru", &all);
    assert_eq!(short, vec!["rust".to_string(), "Ruby".to_string(), "TypeScript".to_string()]);
    assert_eq!(long, vec!["rust".to_string(), "Ruby".to_string()]);
    assert!(long.iter().all(|suggestion| short.contains(suggestion)));
}

#[test]
fn the_lowercase_of_a_longer_query_need_not_contain_that_of_the_shorter() {
    let greek = vec!["ΑΣ".to_string()];
    assert!(filter_strings("Σ", &greek).is_empty());
    assert_eq!(filter_strings("ΑΣ", &greek), greek);
}
