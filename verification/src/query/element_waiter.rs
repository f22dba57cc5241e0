//! Explicit waits on one element: a list of conditions that all have to hold
//! on the same pass.
//!
//! [`ElementWaiter`] collects the settings of a wait. Naming the conditions
//! turns it into a [`WaitStep`]: either the wait is already decided, or a
//! condition is to be evaluated. The caller evaluates it on the element, hands
//! the verdict and the time elapsed to [`ElementWait::step`], and gets the next
//! step back.

use vstd::prelude::*;
use vstd::string::StringExecFns;
use crate::query::conditions::{
    element_has_attribute, element_has_attributes, element_has_class, element_has_css_properties,
    element_has_css_property, element_has_properties, element_has_property, element_has_text,
    element_has_value, element_is_clickable, element_is_displayed, element_is_enabled,
    element_is_not_clickable, element_is_not_displayed, element_is_not_enabled,
    element_is_not_selected, element_is_selected, element_lacks_attribute,
    element_lacks_attributes, element_lacks_class, element_lacks_css_properties,
    element_lacks_css_property, element_lacks_properties, element_lacks_property,
    element_lacks_text, element_lacks_value, ElementPredicate, ElementState, ElementText,
    StateCondition, StringMatch, TextCheck, checks_on_attributes,
    checks_on_css_properties, checks_on_properties,
};
use crate::query::poller::{ElementPoller, ElementPollerTicker, TickerState};

verus! {

/// How a wait ended.
#[derive(Debug, PartialEq, Eq)]
pub enum WaitOutcome<E> {
    /// All conditions held on one pass.
    Satisfied,
    /// A condition did not hold and the poller granted no further attempt. The
    /// text is the message that the wait was given, empty if it was given none.
    TimedOut(String),
    /// A condition failed with an error that its policy does not ignore.
    Aborted(E),
}

/// A wait in progress, as far as its decisions go.
pub struct WaitModel {
    pub conditions: Seq<ElementPredicate>,
    pub message: String,
    pub ticker: TickerState,
    /// The condition to evaluate next. Those before it have held on this pass.
    pub pending: nat,
}

/// What a wait asks of its caller next, as far as its decisions go.
pub enum WaitStepModel<E> {
    Evaluate { wait: WaitModel, sleep: nat },
    Done(WaitOutcome<E>),
}

impl WaitModel {
    /// The first step of a wait for `conditions`: a wait for nothing is
    /// satisfied at once.
    pub open spec fn start<E>(
        poller: ElementPoller,
        message: String,
        conditions: Seq<ElementPredicate>,
    ) -> WaitStepModel<E> {
        if conditions.len() == 0 {
            WaitStepModel::Done(WaitOutcome::Satisfied)
        } else {
            WaitStepModel::Evaluate {
                wait: WaitModel {
                    conditions,
                    message,
                    ticker: TickerState::initial(poller),
                    pending: 0,
                },
                sleep: 0,
            }
        }
    }

    /// The step that follows when the pending condition is given `verdict`,
    /// with `elapsed` on the clock.
    pub open spec fn step<E>(self, verdict: Result<bool, E>, elapsed: u64) -> WaitStepModel<E> {
        match verdict {
            Ok(true) => if self.pending + 1 < self.conditions.len() {
                WaitStepModel::Evaluate {
                    wait: WaitModel { pending: self.pending + 1, ..self },
                    sleep: 0,
                }
            } else {
                WaitStepModel::Done(WaitOutcome::Satisfied)
            },
            Ok(false) => if self.ticker.gives_up(elapsed) {
                WaitStepModel::Done(WaitOutcome::TimedOut(self.message))
            } else {
                WaitStepModel::Evaluate {
                    wait: WaitModel { pending: 0, ticker: self.ticker.ticked(), ..self },
                    sleep: self.ticker.ticked().pause(elapsed),
                }
            },
            Err(e) => WaitStepModel::Done(WaitOutcome::Aborted(e)),
        }
    }
}

/// A wait in progress. It names the condition to evaluate next and takes the
/// verdict on it.
#[derive(Debug)]
pub struct ElementWait {
    conditions: Vec<ElementPredicate>,
    message: String,
    ticker: ElementPollerTicker,
    pending: usize,
}

impl View for ElementWait {
    type V = WaitModel;

    closed spec fn view(&self) -> WaitModel {
        WaitModel {
            conditions: self.conditions@,
            message: self.message,
            ticker: self.ticker@,
            pending: self.pending as nat,
        }
    }
}

/// What a wait asks of its caller next.
#[derive(Debug)]
pub enum WaitStep<E> {
    /// Sleep for `sleep` nanoseconds, evaluate the pending condition of `wait`
    /// on the element, and hand the verdict to [`ElementWait::step`].
    Evaluate { wait: ElementWait, sleep: u128 },
    /// The wait is over.
    Done(WaitOutcome<E>),
}

impl<E> View for WaitStep<E> {
    type V = WaitStepModel<E>;

    open spec fn view(&self) -> WaitStepModel<E> {
        match *self {
            WaitStep::Evaluate { wait, sleep } => WaitStepModel::Evaluate {
                wait: wait@,
                sleep: sleep as nat,
            },
            WaitStep::Done(outcome) => WaitStepModel::Done(outcome),
        }
    }
}

impl ElementWait {
    #[verifier::type_invariant]
    spec fn well_formed(self) -> bool {
        self.pending < self.conditions@.len()
    }

    /// The index of the condition to evaluate next.
    pub fn pending(&self) -> (index: usize)
        ensures
            index == self@.pending,
            index < self@.conditions.len(),
    {
        proof {
            use_type_invariant(self);
        }
        self.pending
    }

    /// The condition to evaluate next.
    pub fn condition(&self) -> (condition: &ElementPredicate)
        ensures
            *condition == self@.conditions[self@.pending as int],
    {
        proof {
            use_type_invariant(self);
        }
        &self.conditions[self.pending]
    }

    /// The number of times the poller has been asked for another attempt.
    pub fn tries(&self) -> (n: u32)
        ensures
            n == self@.ticker.tries,
    {
        self.ticker.tries()
    }

    /// Takes the verdict on the pending condition and the time elapsed since
    /// the wait began, and decides how the wait goes on.
    ///
    /// A condition that holds leads to the next one, and the last one to
    /// success. An error ends the wait with that error. A condition that does
    /// not hold ends the pass: the poller either grants another pass, which
    /// starts with the first condition once the caller has slept, or the wait
    /// times out with its message.
    pub fn step<E>(self, verdict: Result<bool, E>, elapsed: u64) -> (next: WaitStep<E>)
        requires
            self@.ticker.tries < u32::MAX,
        ensures
            next@ == self@.step(verdict, elapsed),
    {
        proof {
            use_type_invariant(&self);
        }
        let ElementWait { conditions, message, mut ticker, pending } = self;
        let count: usize = conditions.len();
        match verdict {
            Ok(true) => {
                if pending + 1 < count {
                    WaitStep::Evaluate {
                        wait: ElementWait { conditions, message, ticker, pending: pending + 1 },
                        sleep: 0,
                    }
                } else {
                    WaitStep::Done(WaitOutcome::Satisfied)
                }
            },
            Ok(false) => {
                if ticker.tick(elapsed) {
                    let sleep: u128 = ticker.remaining_wait(elapsed);
                    WaitStep::Evaluate {
                        wait: ElementWait { conditions, message, ticker, pending: 0 },
                        sleep,
                    }
                } else {
                    WaitStep::Done(WaitOutcome::TimedOut(message))
                }
            },
            Err(e) => WaitStep::Done(WaitOutcome::Aborted(e)),
        }
    }
}

/// Where a wait stands after its caller has answered what it asked for with
/// `answers`, one after the other: each answer is the verdict on the condition
/// that was pending and the time elapsed then. Answers that come after the wait
/// is over change nothing.
pub open spec fn run<E>(start: WaitStepModel<E>, answers: Seq<(Result<bool, E>, u64)>)
    -> WaitStepModel<E>
    decreases answers.len(),
{
    if answers.len() == 0 {
        start
    } else {
        match run(start, answers.drop_last()) {
            WaitStepModel::Evaluate { wait, sleep } => wait.step(
                answers.last().0,
                answers.last().1,
            ),
            WaitStepModel::Done(outcome) => WaitStepModel::Done(outcome),
        }
    }
}

/// The answer at `at` says that the condition holds, and it was given when the
/// wait asked for the condition at `index`.
pub open spec fn held_at<E>(
    start: WaitStepModel<E>,
    answers: Seq<(Result<bool, E>, u64)>,
    at: int,
    index: int,
) -> bool {
    &&& 0 <= at < answers.len()
    &&& answers[at].0 == Ok::<bool, E>(true)
    &&& match run(start, answers.take(at)) {
        WaitStepModel::Evaluate { wait, sleep } => wait.pending == index,
        WaitStepModel::Done(_) => false,
    }
}

/// Of the `count` answers given last, the one at `index` says that the
/// condition holds, and it was given when the wait asked for the condition at
/// `index`.
pub open spec fn held_in_pass<E>(
    start: WaitStepModel<E>,
    answers: Seq<(Result<bool, E>, u64)>,
    count: nat,
    index: int,
) -> bool {
    held_at(start, answers, answers.len() - count + index, index)
}

/// While a wait goes on, the conditions before the pending one have held, one
/// after the other, in the answers given last.
proof fn pass_in_progress<E>(
    poller: ElementPoller,
    message: String,
    conditions: Seq<ElementPredicate>,
    answers: Seq<(Result<bool, E>, u64)>,
)
    ensures
        match run(WaitModel::start(poller, message, conditions), answers) {
            WaitStepModel::Evaluate { wait, sleep } => {
                &&& wait.conditions == conditions
                &&& wait.pending < conditions.len()
                &&& wait.pending <= answers.len()
                &&& forall|j: int|
                    0 <= j < wait.pending ==> #[trigger] held_in_pass(
                        WaitModel::start(poller, message, conditions),
                        answers,
                        wait.pending,
                        j,
                    )
            },
            WaitStepModel::Done(_) => true,
        },
    decreases answers.len(),
{
    let start = WaitModel::start::<E>(poller, message, conditions);
    if answers.len() > 0 {
        let before = answers.drop_last();
        pass_in_progress(poller, message, conditions, before);
        match run(start, answers) {
            WaitStepModel::Evaluate { wait, sleep } => {
                assert forall|j: int| 0 <= j < wait.pending implies #[trigger] held_in_pass(
                    start,
                    answers,
                    wait.pending,
                    j,
                ) by {
                    let at = answers.len() - wait.pending + j;
                    if j + 1 < wait.pending {
                        assert(held_in_pass(start, before, (wait.pending - 1) as nat, j));
                        assert(before.take(at) == answers.take(at));
                    }
                }
            },
            WaitStepModel::Done(_) => {},
        }
    }
}

/// A wait reports success only at the end of a pass on which every condition
/// held: when the last answer satisfies the wait, the answers given last, as
/// many as there are conditions, all say that the condition holds, and they
/// were given for the first condition up to the last, in order. Conditions that
/// held on passes before count for nothing.
pub proof fn satisfied_by_one_pass<E>(
    poller: ElementPoller,
    message: String,
    conditions: Seq<ElementPredicate>,
    answers: Seq<(Result<bool, E>, u64)>,
)
    requires
        answers.len() > 0,
        run(WaitModel::start::<E>(poller, message, conditions), answers.drop_last())
            is Evaluate,
        run(WaitModel::start(poller, message, conditions), answers) == WaitStepModel::Done(
            WaitOutcome::<E>::Satisfied,
        ),
    ensures
        answers.len() >= conditions.len(),
        forall|j: int|
            0 <= j < conditions.len() ==> #[trigger] held_in_pass(
                WaitModel::start(poller, message, conditions),
                answers,
                conditions.len(),
                j,
            ),
{
    let start = WaitModel::start::<E>(poller, message, conditions);
    let before = answers.drop_last();
    pass_in_progress(poller, message, conditions, before);
    assert forall|j: int| 0 <= j < conditions.len() implies #[trigger] held_in_pass(
        start,
        answers,
        conditions.len(),
        j,
    ) by {
        let at = answers.len() - conditions.len() + j;
        if j + 1 < conditions.len() {
            assert(held_in_pass(start, before, (conditions.len() - 1) as nat, j));
            assert(before.take(at) == answers.take(at));
        }
    }
}

/// A wait for one condition that never holds, polled a number of times, is
/// still going on after fewer answers than that number, with one tick counted
/// for each answer.
proof fn still_waiting<E>(
    num_tries: u32,
    interval: u64,
    message: String,
    condition: ElementPredicate,
    answers: Seq<(Result<bool, E>, u64)>,
)
    requires
        answers.len() < num_tries,
        forall|i: int| 0 <= i < answers.len() ==> (#[trigger] answers[i]).0 == Ok::<bool, E>(false),
    ensures
        match run(
            WaitModel::start(
                ElementPoller::NumTriesWithInterval(num_tries, interval),
                message,
                seq![condition],
            ),
            answers,
        ) {
            WaitStepModel::Evaluate { wait, sleep } => wait == (WaitModel {
                conditions: seq![condition],
                message,
                ticker: TickerState::after(
                    ElementPoller::NumTriesWithInterval(num_tries, interval),
                    answers.len(),
                ),
                pending: 0,
            }),
            WaitStepModel::Done(_) => false,
        },
    decreases answers.len(),
{
    if answers.len() > 0 {
        still_waiting(num_tries, interval, message, condition, answers.drop_last());
    }
}

/// With `NumTriesWithInterval(num_tries, interval)` a wait for one condition
/// that never holds times out at the answer number `num_tries`, not before and
/// whatever the clock says, and reports its message.
pub proof fn times_out_after_num_tries<E>(
    num_tries: u32,
    interval: u64,
    message: String,
    condition: ElementPredicate,
    answers: Seq<(Result<bool, E>, u64)>,
)
    requires
        num_tries >= 1,
        answers.len() == num_tries,
        forall|i: int| 0 <= i < answers.len() ==> (#[trigger] answers[i]).0 == Ok::<bool, E>(false),
    ensures
        run(
            WaitModel::start::<E>(
                ElementPoller::NumTriesWithInterval(num_tries, interval),
                message,
                seq![condition],
            ),
            answers.drop_last(),
        ) is Evaluate,
        run(
            WaitModel::start(
                ElementPoller::NumTriesWithInterval(num_tries, interval),
                message,
                seq![condition],
            ),
            answers,
        ) == WaitStepModel::Done(WaitOutcome::<E>::TimedOut(message)),
{
    still_waiting(num_tries, interval, message, condition, answers.drop_last());
}

/// What an [`ElementWaiter`] is set to.
pub struct WaiterView {
    pub poller: ElementPoller,
    pub message: Seq<char>,
    pub ignore_errors: bool,
}

/// High-level interface for performing explicit waits using the builder
/// pattern.
#[derive(Debug, Clone)]
pub struct ElementWaiter {
    poller: ElementPoller,
    message: String,
    ignore_errors: bool,
}

impl View for ElementWaiter {
    type V = WaiterView;

    closed spec fn view(&self) -> WaiterView {
        WaiterView {
            poller: self.poller,
            message: self.message@,
            ignore_errors: self.ignore_errors,
        }
    }
}

/// `step` is the first step of a wait with the settings `waiter` for
/// `conditions`.
pub open spec fn begins<E>(step: WaitStep<E>, waiter: WaiterView, conditions: Seq<ElementPredicate>)
    -> bool {
    exists|message: String|
        message@ == waiter.message && step@ == WaitModel::start::<E>(
            waiter.poller,
            message,
            conditions,
        )
}

/// `step` is the first step of a wait with the settings `waiter` for the one
/// condition that `state` reads as `expected`.
pub open spec fn begins_on_state<E>(
    step: WaitStep<E>,
    waiter: WaiterView,
    state: ElementState,
    expected: bool,
) -> bool {
    begins(step, waiter, seq![ElementPredicate::on_state(state, expected, waiter.ignore_errors)])
}

/// `step` is the first step of a wait with the settings `waiter` for the one
/// condition made of `checks`, in the `has` or the `lacks` form.
pub open spec fn begins_on_texts<E>(
    step: WaitStep<E>,
    waiter: WaiterView,
    checks: Seq<TextCheck>,
    lacks: bool,
) -> bool {
    exists|f: ElementPredicate|
        #![trigger f.is_on_texts(checks, lacks, waiter.ignore_errors)]
        f.is_on_texts(checks, lacks, waiter.ignore_errors) && begins(step, waiter, seq![f])
}

impl ElementWaiter {
    /// A waiter that polls as `poller` says, ignores errors and has no message.
    pub fn new(poller: ElementPoller) -> (waiter: Self)
        ensures
            waiter@ == (WaiterView { poller, message: Seq::empty(), ignore_errors: true }),
    {
        Self { poller, message: String::new(), ignore_errors: true }
    }

    /// Use the specified ElementPoller for this ElementWaiter.
    pub fn with_poller(self, poller: ElementPoller) -> (waiter: Self)
        ensures
            waiter@ == (WaiterView { poller, ..self@ }),
    {
        Self { poller, ..self }
    }

    /// Provide a human-readable error message to be returned in the case of timeout.
    pub fn error(self, message: &str) -> (waiter: Self)
        ensures
            waiter@ == (WaiterView { message: message@, ..self@ }),
    {
        Self { message: String::from_str(message), ..self }
    }

    /// By default a waiter will ignore any errors that occur while polling for
    /// the desired condition(s). With `false` the wait ends early with the
    /// first error instead.
    pub fn ignore_errors(self, ignore: bool) -> (waiter: Self)
        ensures
            waiter@ == (WaiterView { ignore_errors: ignore, ..self@ }),
    {
        Self { ignore_errors: ignore, ..self }
    }

    /// Force this ElementWaiter to wait for the specified timeout, polling once
    /// after each interval.
    pub fn wait(self, timeout: u64, interval: u64) -> (waiter: Self)
        ensures
            waiter@ == (WaiterView {
                poller: ElementPoller::TimeoutWithInterval(timeout, interval),
                ..self@
            }),
    {
        self.with_poller(ElementPoller::TimeoutWithInterval(timeout, interval))
    }

    fn run_poller<E>(self, conditions: Vec<ElementPredicate>) -> (step: WaitStep<E>)
        ensures
            begins(step, self@, conditions@),
    {
        let ticker = ElementPollerTicker::new(self.poller);
        if conditions.len() == 0 {
            WaitStep::Done(WaitOutcome::Satisfied)
        } else {
            WaitStep::Evaluate {
                wait: ElementWait { conditions, message: self.message, ticker, pending: 0 },
                sleep: 0,
            }
        }
    }

    /// Wait for one condition.
    pub fn condition<E>(self, f: ElementPredicate) -> (step: WaitStep<E>)
        ensures
            begins(step, self@, seq![f]),
    {
        let conditions: Vec<ElementPredicate> = vec![f];
        assert(conditions@ =~= seq![f]);
        self.run_poller(conditions)
    }

    /// Wait until all of the conditions hold on the same pass.
    pub fn conditions<E>(self, conditions: Vec<ElementPredicate>) -> (step: WaitStep<E>)
        ensures
            begins(step, self@, conditions@),
    {
        self.run_poller(conditions)
    }

    /// Wait for one condition on texts of the element.
    fn condition_on_texts<E>(self, f: ElementPredicate) -> (step: WaitStep<E>)
        ensures
            forall|checks: Seq<TextCheck>, lacks: bool, ignore: bool|
                #[trigger] f.is_on_texts(checks, lacks, ignore) && ignore == self@.ignore_errors
                    ==> begins_on_texts(step, self@, checks, lacks),
    {
        self.condition(f)
    }

    /// Wait until the element is no longer part of the page.
    pub fn stale<E>(self) -> (step: WaitStep<E>)
        ensures
            begins_on_state(step, self@, ElementState::Present, false),
    {
        let ignore_errors = self.ignore_errors;
        self.condition(
            ElementPredicate::State(
                StateCondition { state: ElementState::Present, expected: false, ignore_errors },
            ),
        )
    }

    /// Wait until the element is displayed.
    pub fn displayed<E>(self) -> (step: WaitStep<E>)
        ensures
            begins_on_state(step, self@, ElementState::Displayed, true),
    {
        let ignore_errors = self.ignore_errors;
        self.condition(element_is_displayed(ignore_errors))
    }

    /// Wait until the element is not displayed.
    pub fn not_displayed<E>(self) -> (step: WaitStep<E>)
        ensures
            begins_on_state(step, self@, ElementState::Displayed, false),
    {
        let ignore_errors = self.ignore_errors;
        self.condition(element_is_not_displayed(ignore_errors))
    }

    /// Wait until the element is selected.
    pub fn selected<E>(self) -> (step: WaitStep<E>)
        ensures
            begins_on_state(step, self@, ElementState::Selected, true),
    {
        let ignore_errors = self.ignore_errors;
        self.condition(element_is_selected(ignore_errors))
    }

    /// Wait until the element is not selected.
    pub fn not_selected<E>(self) -> (step: WaitStep<E>)
        ensures
            begins_on_state(step, self@, ElementState::Selected, false),
    {
        let ignore_errors = self.ignore_errors;
        self.condition(element_is_not_selected(ignore_errors))
    }

    /// Wait until the element is enabled.
    pub fn enabled<E>(self) -> (step: WaitStep<E>)
        ensures
            begins_on_state(step, self@, ElementState::Enabled, true),
    {
        let ignore_errors = self.ignore_errors;
        self.condition(element_is_enabled(ignore_errors))
    }

    /// Wait until the element is not enabled.
    pub fn not_enabled<E>(self) -> (step: WaitStep<E>)
        ensures
            begins_on_state(step, self@, ElementState::Enabled, false),
    {
        let ignore_errors = self.ignore_errors;
        self.condition(element_is_not_enabled(ignore_errors))
    }

    /// Wait until the element is clickable.
    pub fn clickable<E>(self) -> (step: WaitStep<E>)
        ensures
            begins_on_state(step, self@, ElementState::Clickable, true),
    {
        let ignore_errors = self.ignore_errors;
        self.condition(element_is_clickable(ignore_errors))
    }

    /// Wait until the element is not clickable.
    pub fn not_clickable<E>(self) -> (step: WaitStep<E>)
        ensures
            begins_on_state(step, self@, ElementState::Clickable, false),
    {
        let ignore_errors = self.ignore_errors;
        self.condition(element_is_not_clickable(ignore_errors))
    }

    /// Wait until the class name of the element matches the needle.
    pub fn has_class<E>(self, class_name: StringMatch) -> (step: WaitStep<E>)
        ensures
            begins_on_texts(
                step,
                self@,
                seq![TextCheck { source: ElementText::ClassName, needle: class_name }],
                false,
            ),
    {
        let f = element_has_class(class_name, self.ignore_errors);
        self.condition_on_texts(f)
    }

    /// Wait until the class name of the element does not match the needle.
    pub fn lacks_class<E>(self, class_name: StringMatch) -> (step: WaitStep<E>)
        ensures
            begins_on_texts(
                step,
                self@,
                seq![TextCheck { source: ElementText::ClassName, needle: class_name }],
                true,
            ),
    {
        let f = element_lacks_class(class_name, self.ignore_errors);
        self.condition_on_texts(f)
    }

    /// Wait until the text of the element matches the needle.
    pub fn has_text<E>(self, text: StringMatch) -> (step: WaitStep<E>)
        ensures
            begins_on_texts(
                step,
                self@,
                seq![TextCheck { source: ElementText::Text, needle: text }],
                false,
            ),
    {
        let f = element_has_text(text, self.ignore_errors);
        self.condition_on_texts(f)
    }

    /// Wait until the text of the element does not match the needle.
    pub fn lacks_text<E>(self, text: StringMatch) -> (step: WaitStep<E>)
        ensures
            begins_on_texts(
                step,
                self@,
                seq![TextCheck { source: ElementText::Text, needle: text }],
                true,
            ),
    {
        let f = element_lacks_text(text, self.ignore_errors);
        self.condition_on_texts(f)
    }

    /// Wait until the value of the element matches the needle.
    pub fn has_value<E>(self, value: StringMatch) -> (step: WaitStep<E>)
        ensures
            begins_on_texts(
                step,
                self@,
                seq![TextCheck { source: ElementText::Value, needle: value }],
                false,
            ),
    {
        let f = element_has_value(value, self.ignore_errors);
        self.condition_on_texts(f)
    }

    /// Wait until the value of the element does not match the needle.
    pub fn lacks_value<E>(self, value: StringMatch) -> (step: WaitStep<E>)
        ensures
            begins_on_texts(
                step,
                self@,
                seq![TextCheck { source: ElementText::Value, needle: value }],
                true,
            ),
    {
        let f = element_lacks_value(value, self.ignore_errors);
        self.condition_on_texts(f)
    }

    /// Wait until the attribute of this name matches the needle.
    pub fn has_attribute<E>(self, attribute_name: String, value: StringMatch) -> (step: WaitStep<E>)
        ensures
            begins_on_texts(
                step,
                self@,
                seq![TextCheck { source: ElementText::Attribute(attribute_name), needle: value }],
                false,
            ),
    {
        let f = element_has_attribute(attribute_name, value, self.ignore_errors);
        self.condition_on_texts(f)
    }

    /// Wait until the attribute of this name does not match the needle.
    pub fn lacks_attribute<E>(
        self,
        attribute_name: String,
        value: StringMatch,
    ) -> (step: WaitStep<E>)
        ensures
            begins_on_texts(
                step,
                self@,
                seq![TextCheck { source: ElementText::Attribute(attribute_name), needle: value }],
                true,
            ),
    {
        let f = element_lacks_attribute(attribute_name, value, self.ignore_errors);
        self.condition_on_texts(f)
    }

    /// Wait until every listed attribute matches its needle.
    pub fn has_attributes<E>(
        self,
        desired_attributes: Vec<(String, StringMatch)>,
    ) -> (step: WaitStep<E>)
        ensures
            begins_on_texts(
                step,
                self@,
                checks_on_attributes(desired_attributes@),
                false,
            ),
    {
        let f = element_has_attributes(desired_attributes, self.ignore_errors);
        self.condition_on_texts(f)
    }

    /// Wait until not every listed attribute matches its needle.
    pub fn lacks_attributes<E>(
        self,
        desired_attributes: Vec<(String, StringMatch)>,
    ) -> (step: WaitStep<E>)
        ensures
            begins_on_texts(
                step,
                self@,
                checks_on_attributes(desired_attributes@),
                true,
            ),
    {
        let f = element_lacks_attributes(desired_attributes, self.ignore_errors);
        self.condition_on_texts(f)
    }

    /// Wait until the property of this name matches the needle.
    pub fn has_property<E>(self, property_name: String, value: StringMatch) -> (step: WaitStep<E>)
        ensures
            begins_on_texts(
                step,
                self@,
                seq![TextCheck { source: ElementText::Property(property_name), needle: value }],
                false,
            ),
    {
        let f = element_has_property(property_name, value, self.ignore_errors);
        self.condition_on_texts(f)
    }

    /// Wait until the property of this name does not match the needle.
    pub fn lacks_property<E>(self, property_name: String, value: StringMatch) -> (step: WaitStep<E>)
        ensures
            begins_on_texts(
                step,
                self@,
                seq![TextCheck { source: ElementText::Property(property_name), needle: value }],
                true,
            ),
    {
        let f = element_lacks_property(property_name, value, self.ignore_errors);
        self.condition_on_texts(f)
    }

    /// Wait until every listed property matches its needle.
    pub fn has_properties<E>(
        self,
        desired_properties: Vec<(String, StringMatch)>,
    ) -> (step: WaitStep<E>)
        ensures
            begins_on_texts(
                step,
                self@,
                checks_on_properties(desired_properties@),
                false,
            ),
    {
        let f = element_has_properties(desired_properties, self.ignore_errors);
        self.condition_on_texts(f)
    }

    /// Wait until not every listed property matches its needle.
    pub fn lacks_properties<E>(
        self,
        desired_properties: Vec<(String, StringMatch)>,
    ) -> (step: WaitStep<E>)
        ensures
            begins_on_texts(
                step,
                self@,
                checks_on_properties(desired_properties@),
                true,
            ),
    {
        let f = element_lacks_properties(desired_properties, self.ignore_errors);
        self.condition_on_texts(f)
    }

    /// Wait until the CSS property of this name matches the needle.
    pub fn has_css_property<E>(
        self,
        css_property_name: String,
        value: StringMatch,
    ) -> (step: WaitStep<E>)
        ensures
            begins_on_texts(
                step,
                self@,
                seq![TextCheck {
                    source: ElementText::CssProperty(css_property_name),
                    needle: value,
                }],
                false,
            ),
    {
        let f = element_has_css_property(css_property_name, value, self.ignore_errors);
        self.condition_on_texts(f)
    }

    /// Wait until the CSS property of this name does not match the needle.
    pub fn lacks_css_property<E>(
        self,
        css_property_name: String,
        value: StringMatch,
    ) -> (step: WaitStep<E>)
        ensures
            begins_on_texts(
                step,
                self@,
                seq![TextCheck {
                    source: ElementText::CssProperty(css_property_name),
                    needle: value,
                }],
                true,
            ),
    {
        let f = element_lacks_css_property(css_property_name, value, self.ignore_errors);
        self.condition_on_texts(f)
    }

    /// Wait until every listed CSS property matches its needle.
    pub fn has_css_properties<E>(
        self,
        desired_css_properties: Vec<(String, StringMatch)>,
    ) -> (step: WaitStep<E>)
        ensures
            begins_on_texts(
                step,
                self@,
                checks_on_css_properties(desired_css_properties@),
                false,
            ),
    {
        let f = element_has_css_properties(desired_css_properties, self.ignore_errors);
        self.condition_on_texts(f)
    }

    /// Wait until not every listed CSS property matches its needle.
    pub fn lacks_css_properties<E>(
        self,
        desired_css_properties: Vec<(String, StringMatch)>,
    ) -> (step: WaitStep<E>)
        ensures
            begins_on_texts(
                step,
                self@,
                checks_on_css_properties(desired_css_properties@),
                true,
            ),
    {
        let f = element_lacks_css_properties(desired_css_properties, self.ignore_errors);
        self.condition_on_texts(f)
    }
}

} // verus!
