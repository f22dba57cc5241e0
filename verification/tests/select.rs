use thirtyfour_sync::components::select::{
    candidates, escape_string, exact_text_condition, get_longest_token, has_index,
    index_not_found, is_multiple, needs_click, option_by_condition, option_by_value,
    option_by_visible_text, option_containing, partial_text_condition, visible_text_not_found,
    Candidates,
};

#[test]
fn plain_text_goes_in_double_quotes() {
    assert_eq!(escape_string("abc"), "\"abc\"");
    assert_eq!(escape_string(""), "\"\"");
}

#[test]
fn text_with_single_quote_goes_in_double_quotes() {
    assert_eq!(escape_string("it's"), "\"it's\"");
}

#[test]
fn text_with_double_quote_goes_in_single_quotes() {
    assert_eq!(escape_string("say \"hi\""), "'say \"hi\"'");
}

#[test]
fn text_with_both_quotes_becomes_concat() {
    assert_eq!(escape_string("a'b\"c"), "concat(\"a'b\", '\"', \"c\")");
    assert_eq!(
        escape_string("'\"x\"y"),
        "concat(\"'\", '\"', \"x\", '\"', \"y\")"
    );
}

#[test]
fn text_with_both_quotes_ending_in_double_quote() {
    assert_eq!(escape_string("a'\""), "concat(\"a'\", '\"', \"\", '\"')");
}

#[test]
fn escaping_keeps_other_characters() {
    assert_eq!(escape_string("é'ß\"→"), "concat(\"é'ß\", '\"', \"→\")");
}

#[test]
fn longest_token_is_the_first_of_the_longest_words() {
    assert_eq!(get_longest_token("a bcd ef"), "bcd");
    assert_eq!(get_longest_token("abc def"), "abc");
    assert_eq!(get_longest_token("single"), "single");
    assert_eq!(get_longest_token("tail longest"), "longest");
}

#[test]
fn longest_token_of_spaces_is_empty() {
    assert_eq!(get_longest_token(""), "");
    assert_eq!(get_longest_token(" "), "");
    assert_eq!(get_longest_token("   "), "");
}

#[test]
fn longest_token_is_measured_in_bytes() {
    // Two letters of two bytes each take more room than three of one.
    assert_eq!(get_longest_token("abc éé"), "éé");
    assert_eq!(get_longest_token("→ ab"), "→");
    assert_eq!(get_longest_token("ab 𝄞"), "𝄞");
    assert_eq!(get_longest_token("ab é"), "ab");
}

#[test]
fn select_is_multiple_unless_the_attribute_is_missing_or_false() {
    assert!(is_multiple(Some("true")));
    assert!(is_multiple(Some("multiple")));
    assert!(is_multiple(Some("")));
    assert!(!is_multiple(Some("false")));
    assert!(!is_multiple(None));
}

#[test]
fn option_is_clicked_when_its_state_is_the_other_one() {
    assert!(needs_click(false, true));
    assert!(needs_click(true, false));
    assert!(!needs_click(true, true));
    assert!(!needs_click(false, false));
}

#[test]
fn selectors_of_options_are_built_from_the_escaped_text() {
    assert_eq!(option_by_value("a'b"), "option[value=\"a'b\"]");
    assert_eq!(option_by_visible_text("Bar"), ".//option[normalize-space(.) = \"Bar\"]");
    assert_eq!(option_containing("say \"x\""), ".//option[contains(.,'say \"x\"')]");
    assert_eq!(
        option_by_condition("starts-with(text(), 'pre')"),
        ".//option[starts-with(text(), 'pre')]"
    );
    assert_eq!(exact_text_condition("Bar"), "text() = \"Bar\"");
    assert_eq!(partial_text_condition("Ba"), "contains(text(), \"Ba\")");
}

#[test]
fn candidates_are_looked_up_by_the_longest_word() {
    assert_eq!(candidates("Bar"), Candidates::Nowhere);
    assert_eq!(
        candidates("Foo Barbaz"),
        Candidates::Matching(".//option[contains(.,\"Barbaz\")]".to_string())
    );
    assert_eq!(candidates("  "), Candidates::AllOptions);
}

#[test]
fn option_index_is_compared_in_decimal() {
    assert!(has_index(Some("0"), 0));
    assert!(has_index(Some("7"), 7));
    assert!(has_index(Some("10"), 10));
    assert!(has_index(Some("4294967295"), u32::MAX));
    assert!(!has_index(Some("07"), 7));
    assert!(!has_index(Some("8"), 7));
    assert!(!has_index(Some(""), 0));
    assert!(!has_index(None, 0));
}

#[test]
fn messages_name_what_was_not_found() {
    assert_eq!(index_not_found(12), "Could not locate element with index 12");
    assert_eq!(index_not_found(0), "Could not locate element with index 0");
    assert_eq!(
        visible_text_not_found("Foo Bar"),
        "Could not locate element with visible text: Foo Bar"
    );
}
