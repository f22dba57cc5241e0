use thirtyfour_sync::query::conditions::{
    element_is_displayed, element_is_enabled, ElementPredicate, ElementState, ElementText,
    StateCondition, StringMatch, TextCheck, TextCondition,
};
use thirtyfour_sync::query::element_waiter::{ElementWaiter, WaitOutcome, WaitStep};
use thirtyfour_sync::query::poller::ElementPoller;

const MS: u64 = 1_000_000;

/// What a run of a wait came to: how it ended, the time on the clock then, and
/// the time at which each condition was evaluated.
struct WaitRun {
    outcome: WaitOutcome<String>,
    clock: u64,
    evaluations: Vec<(usize, u64)>,
}

/// Runs a wait against a clock that only moves while the wait sleeps. `read`
/// says what the condition at an index reads at a time.
fn run_wait(
    mut step: WaitStep<String>,
    read: impl Fn(usize, u64) -> Result<bool, String>,
) -> WaitRun {
    let mut clock: u64 = 0;
    let mut evaluations = Vec::new();
    loop {
        match step {
            WaitStep::Done(outcome) => return WaitRun { outcome, clock, evaluations },
            WaitStep::Evaluate { wait, sleep } => {
                clock += sleep as u64;
                let index = wait.pending();
                evaluations.push((index, clock));
                let verdict = match wait.condition() {
                    ElementPredicate::State(condition) => condition.verdict(read(index, clock)),
                    ElementPredicate::Text(_) => panic!("these waits read states only"),
                };
                assert!(wait.tries() < u32::MAX);
                step = wait.step(verdict, clock);
            }
        }
    }
}

fn first_condition(step: &WaitStep<String>) -> ElementPredicate {
    match step {
        WaitStep::Evaluate { wait, sleep } => {
            assert_eq!(*sleep, 0);
            assert_eq!(wait.pending(), 0);
            wait.condition().clone()
        }
        WaitStep::Done(_) => panic!("the wait has a condition to evaluate"),
    }
}

#[test]
fn wait_succeeds_at_once_when_the_condition_holds() {
    let waiter = ElementWaiter::new(ElementPoller::default());
    let run = run_wait(waiter.displayed(), |_, _| Ok(true));
    assert_eq!(run.outcome, WaitOutcome::Satisfied);
    assert_eq!(run.evaluations, vec![(0, 0)]);
}

#[test]
fn wait_for_no_condition_is_satisfied_at_once() {
    let waiter = ElementWaiter::new(ElementPoller::NoWait);
    match waiter.conditions::<String>(Vec::new()) {
        WaitStep::Done(outcome) => assert_eq!(outcome, WaitOutcome::Satisfied),
        WaitStep::Evaluate { .. } => panic!("there is nothing to evaluate"),
    }
}

#[test]
fn wait_times_out_with_the_message_it_was_given() {
    let waiter = ElementWaiter::new(ElementPoller::NoWait).error("button never showed");
    let run = run_wait(waiter.displayed(), |_, _| Ok(false));
    assert_eq!(run.outcome, WaitOutcome::TimedOut("button never showed".to_string()));
    assert_eq!(run.evaluations.len(), 1);
}

#[test]
fn wait_times_out_with_an_empty_message_by_default() {
    let waiter = ElementWaiter::new(ElementPoller::NoWait);
    let run = run_wait(waiter.enabled(), |_, _| Ok(false));
    assert_eq!(run.outcome, WaitOutcome::TimedOut(String::new()));
}

#[test]
fn wait_ignores_errors_by_default_and_keeps_polling() {
    let waiter = ElementWaiter::new(ElementPoller::NumTriesWithInterval(3, 10 * MS));
    let run = run_wait(waiter.displayed(), |_, _| Err("stale element".to_string()));
    assert_eq!(run.outcome, WaitOutcome::TimedOut(String::new()));
    assert_eq!(run.evaluations, vec![(0, 0), (0, 10 * MS), (0, 20 * MS)]);
}

#[test]
fn wait_aborts_with_the_error_of_the_condition_when_errors_are_not_ignored() {
    let waiter =
        ElementWaiter::new(ElementPoller::NumTriesWithInterval(3, 10 * MS)).ignore_errors(false);
    let run = run_wait(waiter.displayed(), |_, _| Err("stale element".to_string()));
    assert_eq!(run.outcome, WaitOutcome::Aborted("stale element".to_string()));
    assert_eq!(run.evaluations.len(), 1);
}

#[test]
fn wait_needs_all_conditions_on_the_same_pass() {
    // A holds on the first pass only, B from the second pass on: they hold
    // together on no pass before the third, where A holds again.
    let waiter = ElementWaiter::new(ElementPoller::NumTriesWithInterval(5, 10 * MS));
    let step = waiter.conditions(vec![element_is_displayed(true), element_is_enabled(true)]);
    let run = run_wait(step, |index, clock| {
        let pass = clock / (10 * MS);
        Ok(match index {
            0 => pass != 1,
            _ => pass >= 1,
        })
    });
    assert_eq!(run.outcome, WaitOutcome::Satisfied);
    assert_eq!(
        run.evaluations,
        vec![(0, 0), (1, 0), (0, 10 * MS), (0, 20 * MS), (1, 20 * MS)]
    );
}

#[test]
fn wait_never_succeeds_when_the_conditions_never_hold_together() {
    let waiter = ElementWaiter::new(ElementPoller::NumTriesWithInterval(4, 10 * MS));
    let step = waiter.conditions(vec![element_is_displayed(true), element_is_enabled(true)]);
    // A holds on even passes, B on odd ones.
    let run = run_wait(step, |index, clock| Ok((clock / (10 * MS)) % 2 == index as u64));
    assert_eq!(run.outcome, WaitOutcome::TimedOut(String::new()));
}

#[test]
fn wait_stops_evaluating_a_pass_at_the_first_condition_that_fails() {
    let waiter = ElementWaiter::new(ElementPoller::NumTriesWithInterval(2, MS));
    let step = waiter.conditions(vec![
        element_is_displayed(true),
        element_is_enabled(true),
        ElementPredicate::custom(false),
    ]);
    let run = run_wait(step, |index, _| match index {
        0 => Ok(true),
        1 => Ok(false),
        _ => Err("the third condition must not be evaluated".to_string()),
    });
    assert_eq!(run.outcome, WaitOutcome::TimedOut(String::new()));
    assert_eq!(run.evaluations, vec![(0, 0), (1, 0), (0, MS), (1, MS)]);
}

#[test]
fn stale_wait_succeeds_once_the_element_is_gone() {
    // The element is part of the page for the first 120 ms.
    let waiter = ElementWaiter::new(ElementPoller::default()).wait(200 * MS, 50 * MS);
    let run = run_wait(waiter.stale(), |_, clock| Ok(clock < 120 * MS));
    assert_eq!(run.outcome, WaitOutcome::Satisfied);
    assert_eq!(run.clock, 150 * MS);
    assert!(run.clock >= 120 * MS && run.clock <= 200 * MS);
    assert_eq!(run.evaluations, vec![(0, 0), (0, 50 * MS), (0, 100 * MS), (0, 150 * MS)]);
}

#[test]
fn stale_wait_times_out_when_the_element_stays() {
    let waiter = ElementWaiter::new(ElementPoller::TimeoutWithInterval(200 * MS, 50 * MS))
        .error("Timed out waiting for button to become stale");
    let run = run_wait(waiter.stale(), |_, _| Ok(true));
    assert_eq!(
        run.outcome,
        WaitOutcome::TimedOut("Timed out waiting for button to become stale".to_string())
    );
    assert_eq!(run.clock, 200 * MS);
    assert_eq!(run.evaluations.len(), 5);
}

#[test]
fn with_poller_replaces_the_poller() {
    let waiter = ElementWaiter::new(ElementPoller::default()).with_poller(ElementPoller::NoWait);
    let run = run_wait(waiter.selected(), |_, _| Ok(false));
    assert_eq!(run.evaluations.len(), 1);
}

#[test]
fn state_waits_name_their_condition() {
    let waiter = || ElementWaiter::new(ElementPoller::NoWait);
    let state = |state: ElementState, expected: bool| {
        ElementPredicate::State(StateCondition { state, expected, ignore_errors: true })
    };
    assert_eq!(first_condition(&waiter().stale()), state(ElementState::Present, false));
    assert_eq!(first_condition(&waiter().displayed()), state(ElementState::Displayed, true));
    assert_eq!(first_condition(&waiter().not_displayed()), state(ElementState::Displayed, false));
    assert_eq!(first_condition(&waiter().selected()), state(ElementState::Selected, true));
    assert_eq!(first_condition(&waiter().not_selected()), state(ElementState::Selected, false));
    assert_eq!(first_condition(&waiter().enabled()), state(ElementState::Enabled, true));
    assert_eq!(first_condition(&waiter().not_enabled()), state(ElementState::Enabled, false));
    assert_eq!(first_condition(&waiter().clickable()), state(ElementState::Clickable, true));
    assert_eq!(first_condition(&waiter().not_clickable()), state(ElementState::Clickable, false));
    let strict = ElementWaiter::new(ElementPoller::NoWait).ignore_errors(false);
    assert_eq!(
        first_condition(&strict.stale()),
        ElementPredicate::State(StateCondition {
            state: ElementState::Present,
            expected: false,
            ignore_errors: false
        })
    );
}

#[test]
fn text_waits_name_their_condition() {
    let waiter = || ElementWaiter::new(ElementPoller::NoWait).ignore_errors(false);
    let needle = || StringMatch::new("x").partial();
    let one = |source: ElementText, lacks: bool| {
        ElementPredicate::Text(TextCondition {
            checks: vec![TextCheck { source, needle: needle() }],
            lacks,
            ignore_errors: false,
        })
    };
    let name = || "n".to_string();
    assert_eq!(first_condition(&waiter().has_class(needle())), one(ElementText::ClassName, false));
    assert_eq!(first_condition(&waiter().lacks_class(needle())), one(ElementText::ClassName, true));
    assert_eq!(first_condition(&waiter().has_text(needle())), one(ElementText::Text, false));
    assert_eq!(first_condition(&waiter().lacks_text(needle())), one(ElementText::Text, true));
    assert_eq!(first_condition(&waiter().has_value(needle())), one(ElementText::Value, false));
    assert_eq!(first_condition(&waiter().lacks_value(needle())), one(ElementText::Value, true));
    assert_eq!(
        first_condition(&waiter().has_attribute(name(), needle())),
        one(ElementText::Attribute(name()), false)
    );
    assert_eq!(
        first_condition(&waiter().lacks_attribute(name(), needle())),
        one(ElementText::Attribute(name()), true)
    );
    assert_eq!(
        first_condition(&waiter().has_property(name(), needle())),
        one(ElementText::Property(name()), false)
    );
    assert_eq!(
        first_condition(&waiter().lacks_property(name(), needle())),
        one(ElementText::Property(name()), true)
    );
    assert_eq!(
        first_condition(&waiter().has_css_property(name(), needle())),
        one(ElementText::CssProperty(name()), false)
    );
    assert_eq!(
        first_condition(&waiter().lacks_css_property(name(), needle())),
        one(ElementText::CssProperty(name()), true)
    );
}

#[test]
fn plural_text_waits_name_their_condition() {
    let waiter = || ElementWaiter::new(ElementPoller::NoWait);
    let desired = || {
        vec![("a".to_string(), StringMatch::new("1")), ("b".to_string(), StringMatch::new("2"))]
    };
    let all = |source: fn(String) -> ElementText, lacks: bool| {
        ElementPredicate::Text(TextCondition {
            checks: vec![
                TextCheck { source: source("a".to_string()), needle: StringMatch::new("1") },
                TextCheck { source: source("b".to_string()), needle: StringMatch::new("2") },
            ],
            lacks,
            ignore_errors: true,
        })
    };
    assert_eq!(
        first_condition(&waiter().has_attributes(desired())),
        all(ElementText::Attribute, false),
    );
    assert_eq!(
        first_condition(&waiter().lacks_attributes(desired())),
        all(ElementText::Attribute, true),
    );
    assert_eq!(
        first_condition(&waiter().has_properties(desired())),
        all(ElementText::Property, false),
    );
    assert_eq!(
        first_condition(&waiter().lacks_properties(desired())),
        all(ElementText::Property, true),
    );
    assert_eq!(
        first_condition(&waiter().has_css_properties(desired())),
        all(ElementText::CssProperty, false)
    );
    assert_eq!(
        first_condition(&waiter().lacks_css_properties(desired())),
        all(ElementText::CssProperty, true)
    );
}

#[test]
fn single_condition_wait_takes_any_predicate() {
    let waiter = ElementWaiter::new(ElementPoller::NoWait);
    let step = waiter.condition::<String>(ElementPredicate::custom(false));
    assert_eq!(first_condition(&step), ElementPredicate::custom(false));
    let run = run_wait(step, |_, _| Err("business rule failed".to_string()));
    assert_eq!(run.outcome, WaitOutcome::Aborted("business rule failed".to_string()));
}
