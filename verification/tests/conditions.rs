use thirtyfour_sync::query::conditions::{
    element_has_attribute, element_has_attributes, element_has_class, element_has_css_properties,
    element_has_css_property, element_has_properties, element_has_property, element_has_text,
    element_has_value, element_is_clickable, element_is_displayed, element_is_enabled,
    element_is_not_clickable, element_is_not_displayed, element_is_not_enabled,
    element_is_not_selected, element_is_selected, element_lacks_attribute,
    element_lacks_attributes, element_lacks_class, element_lacks_css_properties,
    element_lacks_css_property, element_lacks_properties, element_lacks_property,
    element_lacks_text, element_lacks_value, handle_errors, negate, ElementPredicate,
    ElementState, ElementText, StateCondition, StringMatch, TextCheck, TextCondition, TextStep,
};

type Reading = Result<Option<String>, String>;

fn text(value: &str) -> Reading {
    Ok(Some(value.to_string()))
}

fn text_condition(predicate: ElementPredicate) -> TextCondition {
    match predicate {
        ElementPredicate::Text(condition) => condition,
        ElementPredicate::State(_) => panic!("a text condition was expected"),
    }
}

fn state_condition(predicate: ElementPredicate) -> StateCondition {
    match predicate {
        ElementPredicate::State(condition) => condition,
        ElementPredicate::Text(_) => panic!("a state condition was expected"),
    }
}

/// Gives the condition its readings in turn, as far as it asks for them.
fn evaluate(condition: &TextCondition, readings: Vec<Reading>) -> (Result<bool, String>, usize) {
    let mut readings = readings.into_iter();
    let mut used = 0;
    let mut step = condition.begin();
    loop {
        match step {
            TextStep::Done(verdict) => return (verdict, used),
            TextStep::Read(index) => {
                assert_eq!(index, used);
                let reading = readings.next().expect("a reading for every check");
                used += 1;
                step = condition.weigh(index, reading);
            }
        }
    }
}

#[test]
fn handle_errors_passes_a_result_on() {
    assert_eq!(handle_errors::<String>(Ok(true), true), Ok(true));
    assert_eq!(handle_errors::<String>(Ok(false), true), Ok(false));
    assert_eq!(handle_errors::<String>(Ok(true), false), Ok(true));
    assert_eq!(handle_errors::<String>(Ok(false), false), Ok(false));
}

#[test]
fn handle_errors_ignores_an_error_every_time() {
    for _ in 0..3 {
        assert_eq!(handle_errors(Err("stale".to_string()), true), Ok(false));
    }
}

#[test]
fn handle_errors_propagates_the_error_unchanged() {
    assert_eq!(handle_errors(Err("stale".to_string()), false), Err("stale".to_string()));
}

#[test]
fn negate_inverts_a_result_but_not_the_policy() {
    assert_eq!(negate::<String>(Ok(true), true), Ok(false));
    assert_eq!(negate::<String>(Ok(false), false), Ok(true));
    assert_eq!(negate(Err("gone".to_string()), true), Ok(false));
    assert_eq!(negate(Err("gone".to_string()), false), Err("gone".to_string()));
}

#[test]
fn full_match_needs_the_whole_haystack() {
    let needle = StringMatch::new("a");
    assert!(needle.is_full_match());
    assert!(!needle.is_partial_match());
    assert!(!needle.is_word_match());
    assert!(needle.is_case_sensitive());
    assert!(needle.is_match("a"));
    assert!(!needle.is_match(""));
    assert!(!needle.is_match("b"));
    assert!(!needle.is_match("A"));
    assert!(!needle.is_match("aa"));
}

#[test]
fn partial_match_finds_a_substring() {
    let needle = StringMatch::new("a").partial();
    assert!(needle.is_partial_match());
    assert!(needle.is_match("a"));
    assert!(needle.is_match("dad"));
    assert!(needle.is_match("ba"));
    assert!(!needle.is_match("A"));
    assert!(!needle.is_match("bcd"));
    assert!(StringMatch::new("").partial().is_match("anything"));
}

#[test]
fn word_match_needs_spaces_or_the_ends_around_the_needle() {
    let needle = StringMatch::new("pure-button").word();
    assert!(needle.is_word_match());
    assert!(needle.is_match("pure-button"));
    assert!(needle.is_match("btn pure-button primary"));
    assert!(needle.is_match("pure-button primary"));
    assert!(needle.is_match("btn pure-button"));
    assert!(!needle.is_match("pure-button-primary"));
    assert!(!needle.is_match("xpure-button"));
    assert!(StringMatch::new("aaa aa").word().is_match("aa aaa aa aaa"));
    assert!(!StringMatch::new("aaa aa").word().is_match("aa aaa aaa"));
}

#[test]
fn case_insensitive_match_compares_lowercase_forms() {
    let needle = StringMatch::new("aA").partial().case_insensitive();
    assert!(!needle.is_case_sensitive());
    assert!(needle.is_match("Aa"));
    assert!(needle.is_match("xAAx"));
    assert!(!needle.is_match("a"));
    assert!(StringMatch::new("STRASSE").case_insensitive().is_match("strasse"));
    let back = needle.case_sensitive();
    assert!(back.is_case_sensitive());
    assert!(!back.is_match("Aa"));
    assert!(back.full().is_full_match());
}

#[test]
fn state_conditions_name_what_to_read() {
    let cases = vec![
        (element_is_enabled(true), ElementState::Enabled, true),
        (element_is_not_enabled(true), ElementState::Enabled, false),
        (element_is_selected(true), ElementState::Selected, true),
        (element_is_not_selected(true), ElementState::Selected, false),
        (element_is_displayed(true), ElementState::Displayed, true),
        (element_is_not_displayed(true), ElementState::Displayed, false),
        (element_is_clickable(true), ElementState::Clickable, true),
        (element_is_not_clickable(true), ElementState::Clickable, false),
        (ElementPredicate::custom(true), ElementState::Custom, true),
    ];
    for (predicate, state, expected) in cases {
        assert_eq!(
            predicate,
            ElementPredicate::State(StateCondition { state, expected, ignore_errors: true })
        );
    }
    assert_eq!(
        element_is_enabled(false),
        ElementPredicate::State(StateCondition {
            state: ElementState::Enabled,
            expected: true,
            ignore_errors: false
        })
    );
}

#[test]
fn state_condition_holds_when_the_state_is_as_expected() {
    let displayed = state_condition(element_is_displayed(true));
    assert_eq!(displayed.verdict::<String>(Ok(true)), Ok(true));
    assert_eq!(displayed.verdict::<String>(Ok(false)), Ok(false));
    let hidden = state_condition(element_is_not_displayed(true));
    assert_eq!(hidden.verdict::<String>(Ok(true)), Ok(false));
    assert_eq!(hidden.verdict::<String>(Ok(false)), Ok(true));
}

#[test]
fn state_condition_treats_an_ignored_error_as_not_yet() {
    for predicate in [element_is_displayed(true), element_is_not_displayed(true)] {
        let condition = state_condition(predicate);
        assert_eq!(condition.verdict(Err("stale".to_string())), Ok(false));
        assert_eq!(condition.verdict(Err("stale".to_string())), Ok(false));
    }
}

#[test]
fn state_condition_propagates_an_error_that_is_not_ignored() {
    for predicate in [element_is_enabled(false), element_is_not_enabled(false)] {
        let condition = state_condition(predicate);
        assert_eq!(condition.verdict(Err("stale".to_string())), Err("stale".to_string()));
    }
}

#[test]
fn custom_condition_goes_by_its_own_policy() {
    let lenient = state_condition(ElementPredicate::custom(true));
    assert_eq!(lenient.verdict::<String>(Ok(true)), Ok(true));
    assert_eq!(lenient.verdict(Err("oops".to_string())), Ok(false));
    let strict = state_condition(ElementPredicate::custom(false));
    assert_eq!(strict.verdict(Err("oops".to_string())), Err("oops".to_string()));
}

#[test]
fn single_text_conditions_name_what_to_read() {
    let needle = StringMatch::new("x");
    let cases = vec![
        (element_has_class(needle.clone(), true), ElementText::ClassName, false),
        (element_lacks_class(needle.clone(), true), ElementText::ClassName, true),
        (element_has_text(needle.clone(), true), ElementText::Text, false),
        (element_lacks_text(needle.clone(), true), ElementText::Text, true),
        (element_has_value(needle.clone(), true), ElementText::Value, false),
        (element_lacks_value(needle.clone(), true), ElementText::Value, true),
        (
            element_has_attribute("href".to_string(), needle.clone(), true),
            ElementText::Attribute("href".to_string()),
            false,
        ),
        (
            element_lacks_attribute("href".to_string(), needle.clone(), true),
            ElementText::Attribute("href".to_string()),
            true,
        ),
        (
            element_has_property("checked".to_string(), needle.clone(), true),
            ElementText::Property("checked".to_string()),
            false,
        ),
        (
            element_lacks_property("checked".to_string(), needle.clone(), true),
            ElementText::Property("checked".to_string()),
            true,
        ),
        (
            element_has_css_property("color".to_string(), needle.clone(), true),
            ElementText::CssProperty("color".to_string()),
            false,
        ),
        (
            element_lacks_css_property("color".to_string(), needle.clone(), true),
            ElementText::CssProperty("color".to_string()),
            true,
        ),
    ];
    for (predicate, source, lacks) in cases {
        assert_eq!(
            predicate,
            ElementPredicate::Text(TextCondition {
                checks: vec![TextCheck { source, needle: needle.clone() }],
                lacks,
                ignore_errors: true,
            })
        );
    }
}

#[test]
fn plural_text_conditions_keep_the_order_of_the_list() {
    let desired = vec![
        ("a".to_string(), StringMatch::new("1")),
        ("b".to_string(), StringMatch::new("2").partial()),
    ];
    let checks = |source: fn(String) -> ElementText| {
        vec![
            TextCheck { source: source("a".to_string()), needle: StringMatch::new("1") },
            TextCheck { source: source("b".to_string()), needle: StringMatch::new("2").partial() },
        ]
    };
    let cases = vec![
        (element_has_attributes(desired.clone(), false), checks(ElementText::Attribute), false),
        (element_lacks_attributes(desired.clone(), false), checks(ElementText::Attribute), true),
        (element_has_properties(desired.clone(), false), checks(ElementText::Property), false),
        (element_lacks_properties(desired.clone(), false), checks(ElementText::Property), true),
        (
            element_has_css_properties(desired.clone(), false),
            checks(ElementText::CssProperty),
            false,
        ),
        (
            element_lacks_css_properties(desired.clone(), false),
            checks(ElementText::CssProperty),
            true,
        ),
    ];
    for (predicate, checks, lacks) in cases {
        assert_eq!(
            predicate,
            ElementPredicate::Text(TextCondition { checks, lacks, ignore_errors: false })
        );
    }
}

#[test]
fn has_text_holds_when_the_text_matches() {
    let condition = text_condition(element_has_text(StringMatch::new("ok").partial(), true));
    assert_eq!(evaluate(&condition, vec![text("all ok")]), (Ok(true), 1));
    assert_eq!(evaluate(&condition, vec![text("nope")]), (Ok(false), 1));
}

#[test]
fn a_text_the_element_does_not_have_matches_nothing() {
    let has = text_condition(element_has_value(StringMatch::new("").partial(), true));
    assert_eq!(evaluate(&has, vec![Ok(None)]), (Ok(false), 1));
    let lacks = text_condition(element_lacks_value(StringMatch::new("").partial(), true));
    assert_eq!(evaluate(&lacks, vec![Ok(None)]), (Ok(true), 1));
}

#[test]
fn lacks_is_the_negation_of_has() {
    let readings = [text("primary button"), text("other"), Ok(None), Err("stale".to_string())];
    for ignore in [true, false] {
        for reading in &readings {
            let has = text_condition(element_has_class(StringMatch::new("button").word(), ignore));
            let lacks =
                text_condition(element_lacks_class(StringMatch::new("button").word(), ignore));
            let positive = evaluate(&has, vec![reading.clone()]).0;
            let negative = evaluate(&lacks, vec![reading.clone()]).0;
            assert_eq!(negative, positive.map(|held| !held));
        }
    }
}

#[test]
fn lacks_reports_absence_when_the_read_failed_and_errors_are_ignored() {
    let lacks = text_condition(element_lacks_text(StringMatch::new("x"), true));
    assert_eq!(evaluate(&lacks, vec![Err("stale".to_string())]), (Ok(true), 1));
    let has = text_condition(element_has_text(StringMatch::new("x"), true));
    assert_eq!(evaluate(&has, vec![Err("stale".to_string())]), (Ok(false), 1));
}

#[test]
fn text_condition_propagates_an_error_that_is_not_ignored() {
    for predicate in [
        element_has_text(StringMatch::new("x"), false),
        element_lacks_text(StringMatch::new("x"), false),
    ] {
        let condition = text_condition(predicate);
        assert_eq!(
            evaluate(&condition, vec![Err("stale".to_string())]),
            (Err("stale".to_string()), 1)
        );
    }
}

#[test]
fn has_attributes_needs_every_attribute_and_stops_at_the_first_that_fails() {
    let desired = vec![
        ("type".to_string(), StringMatch::new("submit")),
        ("name".to_string(), StringMatch::new("go")),
    ];
    let condition = text_condition(element_has_attributes(desired, false));
    assert_eq!(evaluate(&condition, vec![text("submit"), text("go")]), (Ok(true), 2));
    assert_eq!(evaluate(&condition, vec![text("submit"), text("stop")]), (Ok(false), 2));
    assert_eq!(evaluate(&condition, vec![text("submit"), Ok(None)]), (Ok(false), 2));
    // The second attribute is not read once the first has failed.
    assert_eq!(evaluate(&condition, vec![text("reset")]), (Ok(false), 1));
    assert_eq!(
        evaluate(&condition, vec![text("submit"), Err("gone".to_string())]),
        (Err("gone".to_string()), 2)
    );
}

#[test]
fn lacks_attributes_is_the_negation_of_has_attributes() {
    let desired = vec![
        ("type".to_string(), StringMatch::new("submit")),
        ("name".to_string(), StringMatch::new("go")),
    ];
    let condition = text_condition(element_lacks_attributes(desired, true));
    assert_eq!(evaluate(&condition, vec![text("submit"), text("go")]), (Ok(false), 2));
    assert_eq!(evaluate(&condition, vec![text("submit"), text("stop")]), (Ok(true), 2));
    assert_eq!(evaluate(&condition, vec![text("reset")]), (Ok(true), 1));
    assert_eq!(evaluate(&condition, vec![text("submit"), Err("gone".to_string())]), (Ok(true), 2));
}

#[test]
fn a_condition_on_no_text_is_decided_without_a_read() {
    let has = text_condition(element_has_attributes(Vec::new(), true));
    assert_eq!(has.begin::<String>(), TextStep::Done(Ok(true)));
    let lacks = text_condition(element_lacks_attributes(Vec::new(), true));
    assert_eq!(lacks.begin::<String>(), TextStep::Done(Ok(false)));
}

#[test]
fn text_check_holds_one_reading_against_its_needle() {
    let check = TextCheck { source: ElementText::Id, needle: StringMatch::new("btn") };
    assert_eq!(check.holds::<String>(Ok(Some("btn".to_string())), true), Ok(true));
    assert_eq!(check.holds::<String>(Ok(Some("btn2".to_string())), true), Ok(false));
    assert_eq!(check.holds::<String>(Ok(None), true), Ok(false));
    assert_eq!(check.holds(Err("e".to_string()), true), Ok(false));
    assert_eq!(check.holds(Err("e".to_string()), false), Err("e".to_string()));
}
