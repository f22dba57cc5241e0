//! Reusable conditions on an element, and the policy for a read that fails.
//!
//! A condition is a description: which state or text of the element to read and
//! what to expect of it. Reading is the caller's part. The verdict on a reading
//! is made here, so that every condition treats a failed read in the same way:
//! with `ignore_errors` the failure means "not yet", without it the failure ends
//! the wait or the query.

use vstd::prelude::*;
use vstd::string::StringExecFns;

verus! {

/// The outcome of a remote read as a condition sees it, with a failed read
/// settled by the policy: ignored, it counts as "does not hold yet".
pub open spec fn handled<E>(result: Result<bool, E>, ignore_errors: bool) -> Result<bool, E> {
    match result {
        Ok(x) => Ok(x),
        Err(e) => if ignore_errors {
            Ok(false)
        } else {
            Err(e)
        },
    }
}

/// The outcome of a remote read for a condition that expects the opposite. A
/// failed read stays a failed read: ignored, it counts as "does not hold yet".
pub open spec fn negated<E>(result: Result<bool, E>, ignore_errors: bool) -> Result<bool, E> {
    match result {
        Ok(x) => Ok(!x),
        Err(e) => if ignore_errors {
            Ok(false)
        } else {
            Err(e)
        },
    }
}

/// Applies the error policy to the result of a remote read.
pub fn handle_errors<E>(result: Result<bool, E>, ignore_errors: bool) -> (verdict: Result<bool, E>)
    ensures
        verdict == handled(result, ignore_errors),
{
    match result {
        Ok(x) => Ok(x),
        Err(e) => {
            if ignore_errors {
                Ok(false)
            } else {
                Err(e)
            }
        },
    }
}

/// Inverts what a remote read found, then applies the error policy.
pub fn negate<E>(result: Result<bool, E>, ignore_errors: bool) -> (verdict: Result<bool, E>)
    ensures
        verdict == negated(result, ignore_errors),
{
    let inverted = match result {
        Ok(x) => Ok(!x),
        Err(e) => Err(e),
    };
    handle_errors(inverted, ignore_errors)
}

/// How much of the haystack a needle has to cover.
#[derive(Debug, Clone, Copy, PartialEq, Eq, Structural)]
pub enum StringMatchLength {
    /// Needle string must match the whole haystack string.
    Full,
    /// Needle string can be any substring within the haystack string.
    Partial,
    /// Needle string will only match strings within the haystack surrounded by
    /// spaces or a string boundary.
    Word,
}

/// `needle` occurs in `haystack` as a run of consecutive characters.
pub open spec fn occurs_in(needle: Seq<char>, haystack: Seq<char>) -> bool {
    exists|i: int|
        0 <= i <= haystack.len() - needle.len() && #[trigger] haystack.subrange(
            i,
            i + needle.len(),
        ) == needle
}

/// `needle` matches `haystack`, letter for letter, over the given length.
pub open spec fn needle_in_haystack(
    needle: Seq<char>,
    haystack: Seq<char>,
    match_length: StringMatchLength,
) -> bool {
    match match_length {
        StringMatchLength::Full => haystack == needle,
        StringMatchLength::Partial => occurs_in(needle, haystack),
        StringMatchLength::Word => occurs_in(
            seq![' '] + needle + seq![' '],
            seq![' '] + haystack + seq![' '],
        ),
    }
}

/// The lowercase form of a text, as `str::to_lowercase` gives it.
pub uninterp spec fn lowercase(text: Seq<char>) -> Seq<char>;

/// What a [`StringMatch`] is made of.
pub struct StringMatchView {
    pub text: Seq<char>,
    pub match_length: StringMatchLength,
    pub case_sensitive: bool,
}

impl StringMatchView {
    /// The needle matches `haystack`. Without case sensitivity both sides are
    /// compared in their lowercase forms.
    pub open spec fn matches(self, haystack: Seq<char>) -> bool {
        if self.case_sensitive {
            needle_in_haystack(self.text, haystack, self.match_length)
        } else {
            needle_in_haystack(lowercase(self.text), lowercase(haystack), self.match_length)
        }
    }
}

/// A text to look for and the way to compare it: over the whole haystack, any
/// part of it or a whole word, with or without regard to case.
#[derive(Debug, Clone, PartialEq, Eq)]
pub struct StringMatch {
    text: String,
    match_length: StringMatchLength,
    case_sensitive: bool,
}

impl View for StringMatch {
    type V = StringMatchView;

    closed spec fn view(&self) -> StringMatchView {
        StringMatchView {
            text: self.text@,
            match_length: self.match_length,
            case_sensitive: self.case_sensitive,
        }
    }
}

/// Calls `stringmatch::Needle::is_match` on a `stringmatch::StringMatch` built
/// from the given text, length and case sensitivity.
///
/// The contract is that crate's own definition: with case sensitivity the
/// haystack equals the needle (full), contains it (partial) or, with a space
/// put on both ends of both, contains it (word); without, the same holds of the
/// two lowercase forms.
#[verifier::external_body]
fn needle_is_match(
    text: &str,
    match_length: StringMatchLength,
    case_sensitive: bool,
    haystack: &str,
) -> (found: bool)
    ensures
        found == if case_sensitive {
            needle_in_haystack(text@, haystack@, match_length)
        } else {
            needle_in_haystack(lowercase(text@), lowercase(haystack@), match_length)
        },
{
    let needle = stringmatch::StringMatch::new(text);
    let needle = match match_length {
        StringMatchLength::Full => needle.full(),
        StringMatchLength::Partial => needle.partial(),
        StringMatchLength::Word => needle.word(),
    };
    let needle = match case_sensitive {
        true => needle.case_sensitive(),
        false => needle.case_insensitive(),
    };
    stringmatch::Needle::is_match(&needle, haystack)
}

impl StringMatch {
    /// A needle that has to equal the whole haystack, case and all.
    pub fn new(text: &str) -> (needle: Self)
        ensures
            needle@ == (StringMatchView {
                text: text@,
                match_length: StringMatchLength::Full,
                case_sensitive: true,
            }),
    {
        Self {
            text: String::from_str(text),
            match_length: StringMatchLength::Full,
            case_sensitive: true,
        }
    }

    pub fn is_full_match(&self) -> (full: bool)
        ensures
            full == (self@.match_length == StringMatchLength::Full),
    {
        self.match_length == StringMatchLength::Full
    }

    pub fn is_partial_match(&self) -> (partial: bool)
        ensures
            partial == (self@.match_length == StringMatchLength::Partial),
    {
        self.match_length == StringMatchLength::Partial
    }

    pub fn is_word_match(&self) -> (word: bool)
        ensures
            word == (self@.match_length == StringMatchLength::Word),
    {
        self.match_length == StringMatchLength::Word
    }

    pub fn is_case_sensitive(&self) -> (sensitive: bool)
        ensures
            sensitive == self@.case_sensitive,
    {
        self.case_sensitive
    }

    /// The needle may match any part of the haystack.
    pub fn partial(self) -> (needle: Self)
        ensures
            needle@ == (StringMatchView { match_length: StringMatchLength::Partial, ..self@ }),
    {
        Self { match_length: StringMatchLength::Partial, ..self }
    }

    /// The needle has to match the whole haystack.
    pub fn full(self) -> (needle: Self)
        ensures
            needle@ == (StringMatchView { match_length: StringMatchLength::Full, ..self@ }),
    {
        Self { match_length: StringMatchLength::Full, ..self }
    }

    /// The needle has to match whole words of the haystack.
    pub fn word(self) -> (needle: Self)
        ensures
            needle@ == (StringMatchView { match_length: StringMatchLength::Word, ..self@ }),
    {
        Self { match_length: StringMatchLength::Word, ..self }
    }

    pub fn case_insensitive(self) -> (needle: Self)
        ensures
            needle@ == (StringMatchView { case_sensitive: false, ..self@ }),
    {
        Self { case_sensitive: false, ..self }
    }

    pub fn case_sensitive(self) -> (needle: Self)
        ensures
            needle@ == (StringMatchView { case_sensitive: true, ..self@ }),
    {
        Self { case_sensitive: true, ..self }
    }

    /// Whether the needle matches `haystack`.
    pub fn is_match(&self, haystack: &str) -> (found: bool)
        ensures
            found == self@.matches(haystack@),
    {
        needle_is_match(self.text.as_str(), self.match_length, self.case_sensitive, haystack)
    }
}


/// A yes-or-no state of an element that one remote read gives.
#[derive(Debug, Clone, Copy, PartialEq, Eq, Structural)]
pub enum ElementState {
    /// The element is still part of the page.
    Present,
    Displayed,
    Selected,
    Enabled,
    Clickable,
    /// Whatever the caller's own predicate reads.
    Custom,
}

/// A text of an element that one remote read gives, where the element has it.
#[derive(Debug, Clone, PartialEq, Eq)]
pub enum ElementText {
    Text,
    ClassName,
    Value,
    Id,
    TagName,
    /// The attribute of this name.
    Attribute(String),
    /// The property of this name.
    Property(String),
    /// The CSS property of this name.
    CssProperty(String),
}

/// A condition on a state of the element: it holds when the state reads as
/// `expected`.
#[derive(Debug, Clone, Copy, PartialEq, Eq)]
pub struct StateCondition {
    pub state: ElementState,
    pub expected: bool,
    pub ignore_errors: bool,
}

impl StateCondition {
    /// The verdict on one reading of the state.
    pub open spec fn verdict_of<E>(self, reading: Result<bool, E>) -> Result<bool, E> {
        if self.expected {
            handled(reading, self.ignore_errors)
        } else {
            negated(reading, self.ignore_errors)
        }
    }

    /// Whether the condition holds now, given what the read of its state
    /// returned. `Err` ends the wait or the query with that error.
    pub fn verdict<E>(&self, reading: Result<bool, E>) -> (verdict: Result<bool, E>)
        ensures
            verdict == self.verdict_of(reading),
    {
        if self.expected {
            handle_errors(reading, self.ignore_errors)
        } else {
            negate(reading, self.ignore_errors)
        }
    }
}

/// One text of the element and the needle it is held against.
#[derive(Debug, Clone, PartialEq, Eq)]
pub struct TextCheck {
    pub source: ElementText,
    pub needle: StringMatch,
}

impl TextCheck {
    /// Whether the text that was read matches the needle. A text that the
    /// element does not have matches nothing; a failed read goes by the policy.
    pub open spec fn holds_of<E>(self, reading: Result<Option<String>, E>, ignore_errors: bool)
        -> Result<bool, E> {
        match reading {
            Ok(Some(text)) => Ok(self.needle@.matches(text@)),
            Ok(None) => Ok(false),
            Err(e) => handled(Err(e), ignore_errors),
        }
    }

    /// Holds one reading against the needle.
    pub fn holds<E>(
        &self,
        reading: Result<Option<String>, E>,
        ignore_errors: bool,
    ) -> (verdict: Result<bool, E>)
        ensures
            verdict == self.holds_of(reading, ignore_errors),
    {
        match reading {
            Ok(Some(text)) => Ok(self.needle.is_match(text.as_str())),
            Ok(None) => Ok(false),
            Err(e) => handle_errors(Err(e), ignore_errors),
        }
    }
}

/// Where the evaluation of a [`TextCondition`] stands.
#[derive(Debug, PartialEq, Eq)]
pub enum TextStep<E> {
    /// The text of the check at this index is to be read next.
    Read(usize),
    /// The condition is decided.
    Done(Result<bool, E>),
}

/// A condition on texts of the element. In the `has` form it holds when every
/// check finds its text present and matching; the checks are made in order and
/// the first that fails decides. The `lacks` form negates the result of the
/// `has` form, so it holds when the `has` form does not. An ignored read failure
/// makes the `has` form fail, so the `lacks` form reports the text as absent
/// although its presence is unknown.
#[derive(Debug, Clone, PartialEq, Eq)]
pub struct TextCondition {
    pub checks: Vec<TextCheck>,
    pub lacks: bool,
    pub ignore_errors: bool,
}

impl TextCondition {
    /// The verdict once every check has held.
    pub open spec fn when_all_hold<E>(self) -> Result<bool, E> {
        Ok(!self.lacks)
    }

    /// Where the evaluation stands before the check at `index`.
    pub open spec fn at<E>(self, index: int) -> TextStep<E> {
        if index < self.checks@.len() {
            TextStep::Read(index as usize)
        } else {
            TextStep::Done(self.when_all_hold())
        }
    }

    /// Where the evaluation stands after the check at `index` has been given
    /// `reading`.
    pub open spec fn weighed<E>(self, index: int, reading: Result<Option<String>, E>) -> TextStep<
        E,
    > {
        match self.checks@[index].holds_of(reading, self.ignore_errors) {
            Ok(true) => self.at(index + 1),
            Ok(false) => TextStep::Done(Ok(self.lacks)),
            Err(e) => TextStep::Done(Err(e)),
        }
    }

    /// The verdict when the checks from `index` on are given `readings[index]`
    /// and those that follow, as far as they are needed.
    pub open spec fn verdict_from<E>(self, index: int, readings: Seq<Result<Option<String>, E>>)
        -> Result<bool, E>
        decreases self.checks@.len() - index,
    {
        if 0 <= index < self.checks@.len() && index < readings.len() {
            match self.weighed(index, readings[index]) {
                TextStep::Read(_) => self.verdict_from(index + 1, readings),
                TextStep::Done(verdict) => verdict,
            }
        } else {
            self.when_all_hold()
        }
    }

    /// The verdict on the element, given one reading for each check.
    pub open spec fn verdict_of<E>(self, readings: Seq<Result<Option<String>, E>>) -> Result<
        bool,
        E,
    > {
        self.verdict_from(0, readings)
    }

    /// Starts an evaluation: names the first text to read or, where there is
    /// no check to make, the verdict.
    pub fn begin<E>(&self) -> (step: TextStep<E>)
        ensures
            step == self.at::<E>(0),
    {
        self.step_at(0)
    }

    /// Goes on with an evaluation: takes the reading for the check at `index`
    /// and names the next text to read or the verdict.
    pub fn weigh<E>(&self, index: usize, reading: Result<Option<String>, E>) -> (step: TextStep<E>)
        requires
            index < self.checks@.len(),
        ensures
            step == self.weighed(index as int, reading),
    {
        assert(index < self.checks.len());
        match self.checks[index].holds(reading, self.ignore_errors) {
            Ok(true) => self.step_at(index + 1),
            Ok(false) => TextStep::Done(Ok(self.lacks)),
            Err(e) => TextStep::Done(Err(e)),
        }
    }

    fn step_at<E>(&self, index: usize) -> (step: TextStep<E>)
        ensures
            step == self.at::<E>(index as int),
    {
        if index < self.checks.len() {
            TextStep::Read(index)
        } else {
            TextStep::Done(Ok(!self.lacks))
        }
    }
}

/// The negated result of an evaluation, where an error stays the error.
pub open spec fn opposite<E>(verdict: Result<bool, E>) -> Result<bool, E> {
    match verdict {
        Ok(x) => Ok(!x),
        Err(e) => Err(e),
    }
}

/// A `lacks` condition is the negation of the `has` condition on the same
/// checks: on the same readings it holds exactly when the other does not, and
/// fails with the same error.
pub proof fn lacks_negates_has<E>(
    positive: TextCondition,
    negative: TextCondition,
    readings: Seq<Result<Option<String>, E>>,
)
    requires
        !positive.lacks,
        negative.lacks,
        positive.checks@ == negative.checks@,
        positive.ignore_errors == negative.ignore_errors,
    ensures
        negative.verdict_of(readings) == opposite(positive.verdict_of(readings)),
{
    lacks_negates_has_from(positive, negative, 0, readings);
}

/// The same, for an evaluation that goes on from the check at `index`.
proof fn lacks_negates_has_from<E>(
    positive: TextCondition,
    negative: TextCondition,
    index: int,
    readings: Seq<Result<Option<String>, E>>,
)
    requires
        !positive.lacks,
        negative.lacks,
        positive.checks@ == negative.checks@,
        positive.ignore_errors == negative.ignore_errors,
    ensures
        negative.verdict_from(index, readings) == opposite(positive.verdict_from(index, readings)),
    decreases positive.checks@.len() - index,
{
    if 0 <= index < positive.checks@.len() && index < readings.len() {
        lacks_negates_has_from(positive, negative, index + 1, readings);
    }
}

/// The reading says that the text is there and matches the needle of the
/// check.
pub open spec fn matches_reading<E>(check: TextCheck, reading: Result<Option<String>, E>) -> bool {
    match reading {
        Ok(Some(text)) => check.needle@.matches(text@),
        _ => false,
    }
}

/// A `has` condition holds exactly when every one of its texts is there and
/// matches its needle.
pub proof fn has_holds_when_every_text_matches<E>(
    condition: TextCondition,
    readings: Seq<Result<Option<String>, E>>,
)
    requires
        !condition.lacks,
        readings.len() >= condition.checks@.len(),
    ensures
        condition.verdict_of(readings) == Ok::<bool, E>(true) <==> forall|i: int|
            0 <= i < condition.checks@.len() ==> #[trigger] matches_reading(
                condition.checks@[i],
                readings[i],
            ),
{
    has_holds_from(condition, 0, readings);
}

/// The same, for an evaluation that goes on from the check at `index`.
proof fn has_holds_from<E>(
    condition: TextCondition,
    index: int,
    readings: Seq<Result<Option<String>, E>>,
)
    requires
        !condition.lacks,
        readings.len() >= condition.checks@.len(),
        0 <= index,
    ensures
        condition.verdict_from(index, readings) == Ok::<bool, E>(true) <==> forall|i: int|
            index <= i < condition.checks@.len() ==> #[trigger] matches_reading(
                condition.checks@[i],
                readings[i],
            ),
    decreases condition.checks@.len() - index,
{
    if index < condition.checks@.len() {
        has_holds_from(condition, index + 1, readings);
        let held = condition.checks@[index].holds_of(readings[index], condition.ignore_errors);
        assert(held == Ok::<bool, E>(true) <==> matches_reading(
            condition.checks@[index],
            readings[index],
        ));
    }
}

/// A read that fails decides the condition at once. Ignored, it makes a state
/// condition and a `has` condition fail for now and a `lacks` condition hold;
/// not ignored, it ends the evaluation with the error of the read.
pub proof fn failed_read_goes_by_the_policy<E>(
    state: StateCondition,
    text: TextCondition,
    index: int,
    error: E,
)
    requires
        0 <= index < text.checks@.len(),
    ensures
        state.verdict_of(Err::<bool, E>(error)) == if state.ignore_errors {
            Ok(false)
        } else {
            Err(error)
        },
        text.weighed(index, Err::<Option<String>, E>(error)) == TextStep::Done(
            if text.ignore_errors {
                Ok(text.lacks)
            } else {
                Err(error)
            },
        ),
{
}

/// A condition on an element, ready to be held against what is read of it.
#[derive(Debug, Clone, PartialEq, Eq)]
pub enum ElementPredicate {
    State(StateCondition),
    Text(TextCondition),
}


impl ElementPredicate {
    /// The condition that `state` reads as `expected`.
    pub open spec fn on_state(state: ElementState, expected: bool, ignore_errors: bool)
        -> ElementPredicate {
        ElementPredicate::State(StateCondition { state, expected, ignore_errors })
    }

    /// This is the text condition made of `checks`, in the `has` or the
    /// `lacks` form.
    pub open spec fn is_on_texts(self, checks: Seq<TextCheck>, lacks: bool, ignore_errors: bool)
        -> bool {
        match self {
            ElementPredicate::Text(condition) => {
                &&& condition.checks@ == checks
                &&& condition.lacks == lacks
                &&& condition.ignore_errors == ignore_errors
            },
            ElementPredicate::State(_) => false,
        }
    }

    /// A condition of the caller's own: it holds when the caller's predicate
    /// says so, and an error of that predicate goes by the policy.
    pub fn custom(ignore_errors: bool) -> (predicate: ElementPredicate)
        ensures
            predicate == ElementPredicate::on_state(ElementState::Custom, true, ignore_errors),
    {
        ElementPredicate::State(
            StateCondition { state: ElementState::Custom, expected: true, ignore_errors },
        )
    }

    /// A condition on one text of the element.
    pub fn on_text(
        source: ElementText,
        needle: StringMatch,
        lacks: bool,
        ignore_errors: bool,
    ) -> (predicate: ElementPredicate)
        ensures
            predicate.is_on_texts(seq![TextCheck { source, needle }], lacks, ignore_errors),
    {
        let checks: Vec<TextCheck> = vec![TextCheck { source, needle }];
        assert(checks@ =~= seq![TextCheck { source, needle }]);
        ElementPredicate::Text(TextCondition { checks, lacks, ignore_errors })
    }
}

/// The checks that a list of names and needles stands for: the attribute of
/// each name, held against the needle beside it.
pub open spec fn checks_on_attributes(desired: Seq<(String, StringMatch)>) -> Seq<TextCheck> {
    desired.map_values(
        |pair: (String, StringMatch)|
            TextCheck { source: ElementText::Attribute(pair.0), needle: pair.1 },
    )
}

/// The checks that a list of names and needles stands for: the property of
/// each name, held against the needle beside it.
pub open spec fn checks_on_properties(desired: Seq<(String, StringMatch)>) -> Seq<TextCheck> {
    desired.map_values(
        |pair: (String, StringMatch)|
            TextCheck { source: ElementText::Property(pair.0), needle: pair.1 },
    )
}

/// The checks that a list of names and needles stands for: the CSS property of
/// each name, held against the needle beside it.
pub open spec fn checks_on_css_properties(desired: Seq<(String, StringMatch)>) -> Seq<TextCheck> {
    desired.map_values(
        |pair: (String, StringMatch)|
            TextCheck { source: ElementText::CssProperty(pair.0), needle: pair.1 },
    )
}

/// The element is enabled.
pub fn element_is_enabled(ignore_errors: bool) -> (predicate: ElementPredicate)
    ensures
        predicate == ElementPredicate::on_state(ElementState::Enabled, true, ignore_errors),
{
    ElementPredicate::State(
        StateCondition { state: ElementState::Enabled, expected: true, ignore_errors },
    )
}

/// The element is not enabled.
pub fn element_is_not_enabled(ignore_errors: bool) -> (predicate: ElementPredicate)
    ensures
        predicate == ElementPredicate::on_state(ElementState::Enabled, false, ignore_errors),
{
    ElementPredicate::State(
        StateCondition { state: ElementState::Enabled, expected: false, ignore_errors },
    )
}

/// The element is selected.
pub fn element_is_selected(ignore_errors: bool) -> (predicate: ElementPredicate)
    ensures
        predicate == ElementPredicate::on_state(ElementState::Selected, true, ignore_errors),
{
    ElementPredicate::State(
        StateCondition { state: ElementState::Selected, expected: true, ignore_errors },
    )
}

/// The element is not selected.
pub fn element_is_not_selected(ignore_errors: bool) -> (predicate: ElementPredicate)
    ensures
        predicate == ElementPredicate::on_state(ElementState::Selected, false, ignore_errors),
{
    ElementPredicate::State(
        StateCondition { state: ElementState::Selected, expected: false, ignore_errors },
    )
}

/// The element is displayed.
pub fn element_is_displayed(ignore_errors: bool) -> (predicate: ElementPredicate)
    ensures
        predicate == ElementPredicate::on_state(ElementState::Displayed, true, ignore_errors),
{
    ElementPredicate::State(
        StateCondition { state: ElementState::Displayed, expected: true, ignore_errors },
    )
}

/// The element is not displayed.
pub fn element_is_not_displayed(ignore_errors: bool) -> (predicate: ElementPredicate)
    ensures
        predicate == ElementPredicate::on_state(ElementState::Displayed, false, ignore_errors),
{
    ElementPredicate::State(
        StateCondition { state: ElementState::Displayed, expected: false, ignore_errors },
    )
}

/// The element is clickable.
pub fn element_is_clickable(ignore_errors: bool) -> (predicate: ElementPredicate)
    ensures
        predicate == ElementPredicate::on_state(ElementState::Clickable, true, ignore_errors),
{
    ElementPredicate::State(
        StateCondition { state: ElementState::Clickable, expected: true, ignore_errors },
    )
}

/// The element is not clickable.
pub fn element_is_not_clickable(ignore_errors: bool) -> (predicate: ElementPredicate)
    ensures
        predicate == ElementPredicate::on_state(ElementState::Clickable, false, ignore_errors),
{
    ElementPredicate::State(
        StateCondition { state: ElementState::Clickable, expected: false, ignore_errors },
    )
}

/// The class name of the element matches the needle.
pub fn element_has_class(
    class_name: StringMatch,
    ignore_errors: bool,
) -> (predicate: ElementPredicate)
    ensures
        predicate.is_on_texts(
            seq![TextCheck { source: ElementText::ClassName, needle: class_name }],
            false,
            ignore_errors,
        ),
{
    ElementPredicate::on_text(ElementText::ClassName, class_name, false, ignore_errors)
}

/// The class name of the element does not match the needle.
pub fn element_lacks_class(
    class_name: StringMatch,
    ignore_errors: bool,
) -> (predicate: ElementPredicate)
    ensures
        predicate.is_on_texts(
            seq![TextCheck { source: ElementText::ClassName, needle: class_name }],
            true,
            ignore_errors,
        ),
{
    ElementPredicate::on_text(ElementText::ClassName, class_name, true, ignore_errors)
}

/// The text of the element matches the needle.
pub fn element_has_text(text: StringMatch, ignore_errors: bool) -> (predicate: ElementPredicate)
    ensures
        predicate.is_on_texts(
            seq![TextCheck { source: ElementText::Text, needle: text }],
            false,
            ignore_errors,
        ),
{
    ElementPredicate::on_text(ElementText::Text, text, false, ignore_errors)
}

/// The text of the element does not match the needle.
pub fn element_lacks_text(text: StringMatch, ignore_errors: bool) -> (predicate: ElementPredicate)
    ensures
        predicate.is_on_texts(
            seq![TextCheck { source: ElementText::Text, needle: text }],
            true,
            ignore_errors,
        ),
{
    ElementPredicate::on_text(ElementText::Text, text, true, ignore_errors)
}

/// The value of the element matches the needle.
pub fn element_has_value(value: StringMatch, ignore_errors: bool) -> (predicate: ElementPredicate)
    ensures
        predicate.is_on_texts(
            seq![TextCheck { source: ElementText::Value, needle: value }],
            false,
            ignore_errors,
        ),
{
    ElementPredicate::on_text(ElementText::Value, value, false, ignore_errors)
}

/// The value of the element does not match the needle.
pub fn element_lacks_value(value: StringMatch, ignore_errors: bool) -> (predicate: ElementPredicate)
    ensures
        predicate.is_on_texts(
            seq![TextCheck { source: ElementText::Value, needle: value }],
            true,
            ignore_errors,
        ),
{
    ElementPredicate::on_text(ElementText::Value, value, true, ignore_errors)
}

/// The attribute of this name matches the needle.
pub fn element_has_attribute(
    attribute_name: String,
    value: StringMatch,
    ignore_errors: bool,
) -> (predicate: ElementPredicate)
    ensures
        predicate.is_on_texts(
            seq![TextCheck { source: ElementText::Attribute(attribute_name), needle: value }],
            false,
            ignore_errors,
        ),
{
    ElementPredicate::on_text(ElementText::Attribute(attribute_name), value, false, ignore_errors)
}

/// The attribute of this name does not match the needle.
pub fn element_lacks_attribute(
    attribute_name: String,
    value: StringMatch,
    ignore_errors: bool,
) -> (predicate: ElementPredicate)
    ensures
        predicate.is_on_texts(
            seq![TextCheck { source: ElementText::Attribute(attribute_name), needle: value }],
            true,
            ignore_errors,
        ),
{
    ElementPredicate::on_text(ElementText::Attribute(attribute_name), value, true, ignore_errors)
}

/// Turns names and needles into checks on the attribute of each name.
fn attributes_to_checks(desired: Vec<(String, StringMatch)>) -> (checks: Vec<TextCheck>)
    ensures
        checks@ == checks_on_attributes(desired@),
{
    let ghost wanted = checks_on_attributes(desired@);
    let mut checks: Vec<TextCheck> = Vec::new();
    for pair in it: desired
        invariant
            it.seq() == desired@,
            wanted == checks_on_attributes(desired@),
            checks@ == wanted.take(it.index() as int),
    {
        let (name, needle) = pair;
        checks.push(TextCheck { source: ElementText::Attribute(name), needle });
    }
    checks
}

/// Every listed attribute matches its needle.
pub fn element_has_attributes(
    desired_attributes: Vec<(String, StringMatch)>,
    ignore_errors: bool,
) -> (predicate: ElementPredicate)
    ensures
        predicate.is_on_texts(
            checks_on_attributes(desired_attributes@),
            false,
            ignore_errors,
        ),
{
    let checks = attributes_to_checks(desired_attributes);
    ElementPredicate::Text(TextCondition { checks, lacks: false, ignore_errors })
}

/// Not every listed attribute matches its needle: the negation of
/// [`element_has_attributes`] on the same list.
pub fn element_lacks_attributes(
    desired_attributes: Vec<(String, StringMatch)>,
    ignore_errors: bool,
) -> (predicate: ElementPredicate)
    ensures
        predicate.is_on_texts(
            checks_on_attributes(desired_attributes@),
            true,
            ignore_errors,
        ),
{
    let checks = attributes_to_checks(desired_attributes);
    ElementPredicate::Text(TextCondition { checks, lacks: true, ignore_errors })
}

/// The property of this name matches the needle.
pub fn element_has_property(
    property_name: String,
    value: StringMatch,
    ignore_errors: bool,
) -> (predicate: ElementPredicate)
    ensures
        predicate.is_on_texts(
            seq![TextCheck { source: ElementText::Property(property_name), needle: value }],
            false,
            ignore_errors,
        ),
{
    ElementPredicate::on_text(ElementText::Property(property_name), value, false, ignore_errors)
}

/// The property of this name does not match the needle.
pub fn element_lacks_property(
    property_name: String,
    value: StringMatch,
    ignore_errors: bool,
) -> (predicate: ElementPredicate)
    ensures
        predicate.is_on_texts(
            seq![TextCheck { source: ElementText::Property(property_name), needle: value }],
            true,
            ignore_errors,
        ),
{
    ElementPredicate::on_text(ElementText::Property(property_name), value, true, ignore_errors)
}

/// Turns names and needles into checks on the property of each name.
fn properties_to_checks(desired: Vec<(String, StringMatch)>) -> (checks: Vec<TextCheck>)
    ensures
        checks@ == checks_on_properties(desired@),
{
    let ghost wanted = checks_on_properties(desired@);
    let mut checks: Vec<TextCheck> = Vec::new();
    for pair in it: desired
        invariant
            it.seq() == desired@,
            wanted == checks_on_properties(desired@),
            checks@ == wanted.take(it.index() as int),
    {
        let (name, needle) = pair;
        checks.push(TextCheck { source: ElementText::Property(name), needle });
    }
    checks
}

/// Every listed property matches its needle.
pub fn element_has_properties(
    desired_properties: Vec<(String, StringMatch)>,
    ignore_errors: bool,
) -> (predicate: ElementPredicate)
    ensures
        predicate.is_on_texts(
            checks_on_properties(desired_properties@),
            false,
            ignore_errors,
        ),
{
    let checks = properties_to_checks(desired_properties);
    ElementPredicate::Text(TextCondition { checks, lacks: false, ignore_errors })
}

/// Not every listed property matches its needle: the negation of
/// [`element_has_properties`] on the same list.
pub fn element_lacks_properties(
    desired_properties: Vec<(String, StringMatch)>,
    ignore_errors: bool,
) -> (predicate: ElementPredicate)
    ensures
        predicate.is_on_texts(
            checks_on_properties(desired_properties@),
            true,
            ignore_errors,
        ),
{
    let checks = properties_to_checks(desired_properties);
    ElementPredicate::Text(TextCondition { checks, lacks: true, ignore_errors })
}

/// The CSS property of this name matches the needle.
pub fn element_has_css_property(
    css_property_name: String,
    value: StringMatch,
    ignore_errors: bool,
) -> (predicate: ElementPredicate)
    ensures
        predicate.is_on_texts(
            seq![TextCheck { source: ElementText::CssProperty(css_property_name), needle: value }],
            false,
            ignore_errors,
        ),
{
    ElementPredicate::on_text(
        ElementText::CssProperty(css_property_name),
        value,
        false,
        ignore_errors,
    )
}

/// The CSS property of this name does not match the needle.
pub fn element_lacks_css_property(
    css_property_name: String,
    value: StringMatch,
    ignore_errors: bool,
) -> (predicate: ElementPredicate)
    ensures
        predicate.is_on_texts(
            seq![TextCheck { source: ElementText::CssProperty(css_property_name), needle: value }],
            true,
            ignore_errors,
        ),
{
    ElementPredicate::on_text(
        ElementText::CssProperty(css_property_name),
        value,
        true,
        ignore_errors,
    )
}

/// Turns names and needles into checks on the CSS property of each name.
fn css_properties_to_checks(desired: Vec<(String, StringMatch)>) -> (checks: Vec<TextCheck>)
    ensures
        checks@ == checks_on_css_properties(desired@),
{
    let ghost wanted = checks_on_css_properties(desired@);
    let mut checks: Vec<TextCheck> = Vec::new();
    for pair in it: desired
        invariant
            it.seq() == desired@,
            wanted == checks_on_css_properties(desired@),
            checks@ == wanted.take(it.index() as int),
    {
        let (name, needle) = pair;
        checks.push(TextCheck { source: ElementText::CssProperty(name), needle });
    }
    checks
}

/// Every listed CSS property matches its needle.
pub fn element_has_css_properties(
    desired_css_properties: Vec<(String, StringMatch)>,
    ignore_errors: bool,
) -> (predicate: ElementPredicate)
    ensures
        predicate.is_on_texts(
            checks_on_css_properties(desired_css_properties@),
            false,
            ignore_errors,
        ),
{
    let checks = css_properties_to_checks(desired_css_properties);
    ElementPredicate::Text(TextCondition { checks, lacks: false, ignore_errors })
}

/// Not every listed CSS property matches its needle: the negation of
/// [`element_has_css_properties`] on the same list.
pub fn element_lacks_css_properties(
    desired_css_properties: Vec<(String, StringMatch)>,
    ignore_errors: bool,
) -> (predicate: ElementPredicate)
    ensures
        predicate.is_on_texts(
            checks_on_css_properties(desired_css_properties@),
            true,
            ignore_errors,
        ),
{
    let checks = css_properties_to_checks(desired_css_properties);
    ElementPredicate::Text(TextCondition { checks, lacks: true, ignore_errors })
}

} // verus!
