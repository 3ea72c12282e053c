use ovim::element_query::element_labels;
use ovim::hints::{filter_by_prefix, filter_hints, filter_hints_with_input, generate_hints, match_hint, HintUpdate, DEFAULT_HINT_CHARS};

#[test]
fn test_generate_single_char_hints() {
    let hints = generate_hints(5, "asdfg");
    assert_eq!(hints, vec!["A", "S", "D", "F", "G"]);
}

#[test]
fn test_generate_two_char_hints() {
    let hints = generate_hints(7, "ab");
    assert_eq!(hints, vec!["A", "B", "AA", "AB", "BA", "BB", "AAA"]);
}

#[test]
fn test_generate_empty() {
    let hints = generate_hints(0, "abc");
    assert!(hints.is_empty());
}

#[test]
fn test_match_hint_exact() {
    assert_eq!(match_hint("AB", "ab"), Some(true));
    assert_eq!(match_hint("AB", "AB"), Some(true));
}

#[test]
fn test_match_hint_partial() {
    assert_eq!(match_hint("AB", "a"), Some(false));
    assert_eq!(match_hint("ABC", "ab"), Some(false));
}

#[test]
fn test_match_hint_none() {
    assert_eq!(match_hint("AB", "c"), None);
    assert_eq!(match_hint("AB", "ba"), None);
}

#[test]
fn test_filter_by_prefix() {
    let hints = vec!["A".to_string(), "AB".to_string(), "AC".to_string(), "B".to_string()];
    let filtered = filter_by_prefix(&hints, "a");
    assert_eq!(filtered, vec![0, 1, 2]);
}

#[test]
fn generate_hints_gives_count_labels_past_triples() {
    // One character gives one label of each length.
    let hints = generate_hints(5, "q");
    assert_eq!(hints, vec!["Q", "QQ", "QQQ", "QQQQ", "QQQQQ"]);
    let more = generate_hints(20, "ab");
    assert_eq!(more.len(), 20);
    assert_eq!(more[13], "BBB");
    assert_eq!(more[14], "AAAA");
    assert_eq!(more[19], "ABAB");
}

#[test]
fn generated_label_lengths_never_decrease() {
    let hints = generate_hints(40, "abc");
    for i in 1..hints.len() {
        assert!(hints[i - 1].len() <= hints[i].len());
    }
}

#[test]
fn generate_hints_without_characters_numbers_the_elements() {
    let hints = generate_hints(3, "");
    assert_eq!(hints, vec!["0", "1", "2"]);
}

#[test]
fn generate_hints_default_characters_start_with_home_row() {
    let hints = generate_hints(28, DEFAULT_HINT_CHARS);
    assert_eq!(hints.len(), 28);
    assert_eq!(hints[0], "A");
    assert_eq!(hints[1], "S");
    assert_eq!(hints[25], "M");
    assert_eq!(hints[26], "AA");
    assert_eq!(hints[27], "AS");
}

#[test]
fn generated_labels_are_distinct() {
    let hints = generate_hints(200, DEFAULT_HINT_CHARS);
    for i in 0..hints.len() {
        for j in (i + 1)..hints.len() {
            assert_ne!(hints[i], hints[j]);
        }
    }
}

#[test]
fn match_hint_empty_input_is_partial() {
    assert_eq!(match_hint("AB", ""), Some(false));
}

#[test]
fn filter_hints_marks_visible_hints() {
    let hints = vec!["A".to_string(), "SA".to_string(), "SD".to_string()];
    assert_eq!(filter_hints("s", &hints), vec![false, true, true]);
    assert_eq!(filter_hints("", &hints), vec![true, true, true]);
}

#[test]
fn filter_hints_with_input_reports_typed_and_remaining_text() {
    let hints = vec!["A".to_string(), "SA".to_string()];
    let updates: Vec<HintUpdate> = filter_hints_with_input("s", &hints);
    assert_eq!(updates.len(), 2);
    assert!(!updates[0].visible);
    assert_eq!(updates[0].text, None);
    assert!(updates[1].visible);
    assert_eq!(updates[1].text, Some("A".to_string()));
    let none_typed = filter_hints_with_input("", &hints);
    assert!(none_typed[0].visible && none_typed[1].visible);
    assert_eq!(none_typed[1].text, None);
}

#[test]
fn element_labels_follow_generated_hints() {
    let labels = element_labels(3);
    assert_eq!(labels, vec!["A", "S", "D"]);
    let count = 26 + 26 * 26 + 26 * 26 * 26 + 2;
    let many = element_labels(count);
    assert_eq!(many.len(), count);
    assert_eq!(many[count - 2], "AAAA");
    assert_eq!(many[count - 1], "AAAS");
    assert_eq!(many, generate_hints(count, DEFAULT_HINT_CHARS));
}
