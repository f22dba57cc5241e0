//! Queries for elements: several selectors, each with its filters, tried in
//! order on every pass until one of them yields an element.
//!
//! [`ElementQuery`] collects the branches of a query. Asking for a result turns
//! it into a [`QueryStep`]. The caller does what the step names, a lookup or
//! the evaluation of one filter on one element, and hands the answer back with
//! the time elapsed; the step that comes back says how to go on. The caller
//! keeps the handles of the elements found last, in the order it was given
//! them: the query speaks of elements by their place in that list.

use vstd::prelude::*;
use vstd::string::StringExecFns;
use crate::query::conditions::{
    element_has_attribute, element_has_attributes, element_has_class, element_has_css_properties,
    element_has_css_property, element_has_properties, element_has_property, element_has_text,
    element_has_value, element_is_clickable, element_is_displayed, element_is_enabled,
    element_is_not_clickable, element_is_not_displayed, element_is_not_enabled,
    element_is_not_selected, element_is_selected, element_lacks_attribute,
    element_lacks_attributes, element_lacks_class, element_lacks_css_properties,
    element_lacks_css_property, element_lacks_properties, element_lacks_property,
    element_lacks_text, element_lacks_value, ElementPredicate, ElementState, ElementText,
    StringMatch, TextCheck, checks_on_attributes, checks_on_css_properties, checks_on_properties,
};
use crate::query::poller::{ElementPoller, ElementPollerTicker, TickerState};

verus! {

/// One branch of a query: a selector and the filters that an element found by
/// it has to pass, all of them.
#[derive(Debug, Clone, PartialEq, Eq)]
pub struct ElementSelector {
    /// The selector, in words: the caller knows how to look it up.
    pub by: String,
    pub filters: Vec<ElementPredicate>,
}

/// What an [`ElementSelector`] is made of.
pub struct SelectorView {
    pub by: String,
    pub filters: Seq<ElementPredicate>,
}

impl View for ElementSelector {
    type V = SelectorView;

    open spec fn view(&self) -> SelectorView {
        SelectorView { by: self.by, filters: self.filters@ }
    }
}

impl ElementSelector {
    /// A branch without filters.
    pub fn new(by: String) -> (selector: Self)
        ensures
            selector@ == (SelectorView { by, filters: Seq::empty() }),
    {
        Self { by, filters: Vec::new() }
    }

    /// One more filter for the elements of this branch.
    pub fn add_filter(&mut self, f: ElementPredicate)
        ensures
            final(self)@ == (SelectorView { filters: old(self)@.filters.push(f), ..old(self)@ }),
    {
        self.filters.push(f);
    }
}

/// What a query is asked for.
#[derive(Debug, Clone, Copy, PartialEq, Eq, Structural)]
pub enum QueryMode {
    /// The first element of the winning branch that passes its filters.
    First,
    /// Every element of the winning branch that passes its filters.
    All,
    /// Whether any branch wins before the poller gives up.
    Exists,
    /// Whether no branch wins before the poller gives up.
    NotExists,
}

/// Why a lookup returned no list of elements.
#[derive(Debug, PartialEq, Eq)]
pub enum FindFailure<E> {
    /// The selector matches nothing. To a query that is an empty list.
    NoSuchElement,
    /// The lookup itself failed.
    Other(E),
}

/// How a query ended. Elements are named by their place in the list that the
/// lookup of the winning branch returned last.
#[derive(Debug, PartialEq, Eq)]
pub enum QueryOutcome<E> {
    First { branch: usize, element: usize },
    All { branch: usize, elements: Vec<usize> },
    /// The answer of `does_exist` or `not_exists`.
    Answer(bool),
    /// No branch won before the poller gave up. The text names what was
    /// looked for.
    NotFound(String),
    /// A lookup or a filter failed with an error that is not ignored.
    Aborted(E),
}

/// How a query ended, as far as its decisions go.
pub enum QueryOutcomeView<E> {
    First { branch: nat, element: nat },
    All { branch: nat, elements: Seq<nat> },
    Answer(bool),
    NotFound(String),
    Aborted(E),
}

/// The places `0, 1, ...` of a list as numbers of the model.
pub open spec fn places(kept: Seq<usize>) -> Seq<nat> {
    kept.map_values(|place: usize| place as nat)
}

impl<E> View for QueryOutcome<E> {
    type V = QueryOutcomeView<E>;

    open spec fn view(&self) -> QueryOutcomeView<E> {
        match *self {
            QueryOutcome::First { branch, element } => QueryOutcomeView::First {
                branch: branch as nat,
                element: element as nat,
            },
            QueryOutcome::All { branch, elements } => QueryOutcomeView::All {
                branch: branch as nat,
                elements: places(elements@),
            },
            QueryOutcome::Answer(answer) => QueryOutcomeView::Answer(answer),
            QueryOutcome::NotFound(message) => QueryOutcomeView::NotFound(message),
            QueryOutcome::Aborted(e) => QueryOutcomeView::Aborted(e),
        }
    }
}

/// A query in progress, as far as its decisions go: what does not change from
/// one step to the next, and the ticker.
pub struct QueryModel {
    pub selectors: Seq<SelectorView>,
    /// What a query that finds nothing reports.
    pub message: String,
    pub mode: QueryMode,
    pub ticker: TickerState,
}

/// What a query asks of its caller next, as far as its decisions go.
pub enum QueryStepModel<E> {
    /// Look up the selector of `branch`, after a sleep of `sleep`.
    Find { query: QueryModel, branch: nat, sleep: nat },
    /// Evaluate the filter at `filter` of `branch` on the element at
    /// `element` of the `found` that the lookup returned. `kept` are the
    /// elements before it that passed every filter.
    Filter {
        query: QueryModel,
        branch: nat,
        found: nat,
        element: nat,
        filter: nat,
        kept: Seq<nat>,
    },
    Done(QueryOutcomeView<E>),
}

impl QueryModel {
    /// The outcome when `branch` has won with the elements `kept`.
    pub open spec fn won<E>(self, branch: nat, kept: Seq<nat>) -> QueryOutcomeView<E> {
        match self.mode {
            QueryMode::First => QueryOutcomeView::First { branch, element: kept[0] },
            QueryMode::All => QueryOutcomeView::All { branch, elements: kept },
            QueryMode::Exists => QueryOutcomeView::Answer(true),
            QueryMode::NotExists => QueryOutcomeView::Answer(false),
        }
    }

    /// The outcome when the poller gives up.
    pub open spec fn exhausted<E>(self) -> QueryOutcomeView<E> {
        match self.mode {
            QueryMode::First => QueryOutcomeView::NotFound(self.message),
            QueryMode::All => QueryOutcomeView::NotFound(self.message),
            QueryMode::Exists => QueryOutcomeView::Answer(false),
            QueryMode::NotExists => QueryOutcomeView::Answer(true),
        }
    }

    /// No branch has won on this pass: the poller grants another pass, which
    /// starts with the first branch after a sleep, or the query is over.
    pub open spec fn end_of_pass<E>(self, elapsed: u64) -> QueryStepModel<E> {
        if self.ticker.gives_up(elapsed) {
            QueryStepModel::Done(self.exhausted())
        } else {
            QueryStepModel::Find {
                query: QueryModel { ticker: self.ticker.ticked(), ..self },
                branch: 0,
                sleep: self.ticker.ticked().pause(elapsed),
            }
        }
    }

    /// `branch` has yielded nothing: the next branch is tried, or the pass
    /// ends.
    pub open spec fn next_branch<E>(self, branch: nat, elapsed: u64) -> QueryStepModel<E> {
        if branch + 1 < self.selectors.len() {
            QueryStepModel::Find { query: self, branch: branch + 1, sleep: 0 }
        } else {
            self.end_of_pass(elapsed)
        }
    }

    /// All elements of `branch` have been filtered and `kept` are those that
    /// passed: with any left the branch wins.
    pub open spec fn after_branch<E>(self, branch: nat, kept: Seq<nat>, elapsed: u64)
        -> QueryStepModel<E> {
        if kept.len() > 0 {
            QueryStepModel::Done(self.won(branch, kept))
        } else {
            self.next_branch(branch, elapsed)
        }
    }

    /// The element at `element` has been dealt with and `kept` are the
    /// elements up to it that passed: the next element is filtered, or the
    /// branch is done.
    pub open spec fn after_element<E>(
        self,
        branch: nat,
        found: nat,
        element: nat,
        kept: Seq<nat>,
        elapsed: u64,
    ) -> QueryStepModel<E> {
        if element + 1 < found {
            QueryStepModel::Filter {
                query: self,
                branch,
                found,
                element: element + 1,
                filter: 0,
                kept,
            }
        } else {
            self.after_branch(branch, kept, elapsed)
        }
    }

    /// The step that follows the lookup of `branch`. A selector that matches
    /// nothing yields nothing; any other failure ends the query. Elements of a
    /// branch without filters all pass.
    pub open spec fn found<E>(
        self,
        branch: nat,
        result: Result<usize, FindFailure<E>>,
        elapsed: u64,
    )
        -> QueryStepModel<E> {
        match result {
            Err(FindFailure::Other(e)) => QueryStepModel::Done(QueryOutcomeView::Aborted(e)),
            Err(FindFailure::NoSuchElement) => self.next_branch(branch, elapsed),
            Ok(count) => if count == 0 {
                self.next_branch(branch, elapsed)
            } else if self.selectors[branch as int].filters.len() == 0 {
                self.after_branch(branch, Seq::new(count as nat, |i: int| i as nat), elapsed)
            } else {
                QueryStepModel::Filter {
                    query: self,
                    branch,
                    found: count as nat,
                    element: 0,
                    filter: 0,
                    kept: Seq::empty(),
                }
            },
        }
    }

    /// The step that follows the verdict of one filter on one element. An
    /// element passes when its last filter holds and is dropped when one does
    /// not; an error ends the query.
    pub open spec fn judged<E>(
        self,
        branch: nat,
        found: nat,
        element: nat,
        filter: nat,
        kept: Seq<nat>,
        verdict: Result<bool, E>,
        elapsed: u64,
    ) -> QueryStepModel<E> {
        match verdict {
            Ok(true) => if filter + 1 < self.selectors[branch as int].filters.len() {
                QueryStepModel::Filter {
                    query: self,
                    branch,
                    found,
                    element,
                    filter: filter + 1,
                    kept,
                }
            } else {
                self.after_element(branch, found, element, kept.push(element), elapsed)
            },
            Ok(false) => self.after_element(branch, found, element, kept, elapsed),
            Err(e) => QueryStepModel::Done(QueryOutcomeView::Aborted(e)),
        }
    }

    /// The first step of a query. One without a branch finds nothing.
    pub open spec fn start<E>(self) -> QueryStepModel<E> {
        if self.selectors.len() == 0 {
            QueryStepModel::Done(QueryOutcomeView::NotFound(self.message))
        } else {
            QueryStepModel::Find { query: self, branch: 0, sleep: 0 }
        }
    }
}


/// What a page answers on one pass: `found(branch)` is what the lookup of a
/// branch returns and `holds(branch, element, filter)` the verdict of a filter
/// on an element of the branch.
pub struct Page<E> {
    pub found: spec_fn(nat) -> Result<usize, FindFailure<E>>,
    pub holds: spec_fn(nat, nat, nat) -> Result<bool, E>,
}

/// Whether the element at `element` of `branch` passes the filters from
/// `filter` on: it does when all of them hold. The filters are taken in
/// order, and the first that does not hold or fails decides.
pub open spec fn passes_from<E>(
    query: QueryModel,
    page: Page<E>,
    branch: nat,
    element: nat,
    filter: nat,
) -> Result<bool, E>
    decreases query.selectors[branch as int].filters.len() - filter,
{
    if filter >= query.selectors[branch as int].filters.len() {
        Ok(true)
    } else {
        match (page.holds)(branch, element, filter) {
            Ok(true) => passes_from(query, page, branch, element, filter + 1),
            verdict => verdict,
        }
    }
}

/// The elements of `branch` below `count` that pass every filter, in the
/// order in which they were found. The elements are taken in order, and the
/// first filter that fails decides for all.
pub open spec fn survivors<E>(query: QueryModel, page: Page<E>, branch: nat, count: nat) -> Result<
    Seq<nat>,
    E,
>
    decreases count,
{
    if count == 0 {
        Ok(Seq::empty())
    } else {
        match survivors(query, page, branch, (count - 1) as nat) {
            Ok(before) => match passes_from(query, page, branch, (count - 1) as nat, 0) {
                Ok(true) => Ok(before.push((count - 1) as nat)),
                Ok(false) => Ok(before),
                Err(e) => Err(e),
            },
            Err(e) => Err(e),
        }
    }
}

/// The number of elements that the lookup of `branch` yields: none where the
/// selector matches nothing. A lookup that fails yields no number.
pub open spec fn yield_of<E>(page: Page<E>, branch: nat) -> Result<nat, E> {
    match (page.found)(branch) {
        Ok(count) => Ok(count as nat),
        Err(FindFailure::NoSuchElement) => Ok(0),
        Err(FindFailure::Other(e)) => Err(e),
    }
}

/// What one pass comes to, from the branch at `from` on. The branches are
/// taken in order. The first of which an element passes every filter wins,
/// with those of its elements that do; a lookup or a filter that fails before
/// that ends the query. Where no branch has such an element, the pass ends
/// without a winner and the poller decides.
pub open spec fn pass_result<E>(query: QueryModel, page: Page<E>, from: nat, elapsed: u64)
    -> QueryStepModel<E>
    decreases query.selectors.len() - from,
{
    if from >= query.selectors.len() {
        query.end_of_pass(elapsed)
    } else {
        match yield_of(page, from) {
            Err(e) => QueryStepModel::Done(QueryOutcomeView::Aborted(e)),
            Ok(count) => match survivors(query, page, from, count) {
                Err(e) => QueryStepModel::Done(QueryOutcomeView::Aborted(e)),
                Ok(kept) => if kept.len() > 0 {
                    QueryStepModel::Done(query.won(from, kept))
                } else {
                    pass_result(query, page, (from + 1) as nat, elapsed)
                },
            },
        }
    }
}

impl<E> QueryStepModel<E> {
    /// The step asks for something, and what it asks for exists.
    pub open spec fn in_progress(self) -> bool {
        match self {
            QueryStepModel::Find { query, branch, sleep } => branch < query.selectors.len(),
            QueryStepModel::Filter { query, branch, found, element, filter, kept } => {
                &&& branch < query.selectors.len()
                &&& element < found
                &&& filter < query.selectors[branch as int].filters.len()
            },
            QueryStepModel::Done(_) => false,
        }
    }

    /// The step is the first of a pass: the lookup of the first branch.
    pub open spec fn begins_pass(self) -> bool {
        match self {
            QueryStepModel::Find { query, branch, sleep } => branch == 0,
            _ => false,
        }
    }

    /// The step that follows when the caller answers with what the page says.
    pub open spec fn answered(self, page: Page<E>, elapsed: u64) -> QueryStepModel<E> {
        match self {
            QueryStepModel::Find { query, branch, sleep } => query.found(
                branch,
                (page.found)(branch),
                elapsed,
            ),
            QueryStepModel::Filter { query, branch, found, element, filter, kept } => query.judged(
                branch,
                found,
                element,
                filter,
                kept,
                (page.holds)(branch, element, filter),
                elapsed,
            ),
            QueryStepModel::Done(outcome) => self,
        }
    }

    /// How far the step is from the end of its pass: branches to go, then
    /// elements to go, then filters to go.
    pub open spec fn distance(self) -> (int, int, int) {
        match self {
            QueryStepModel::Find { query, branch, sleep } => (
                2 * (query.selectors.len() - branch) + 1,
                0,
                0,
            ),
            QueryStepModel::Filter { query, branch, found, element, filter, kept } => (
                2 * (query.selectors.len() - branch),
                found - element,
                query.selectors[branch as int].filters.len() - filter,
            ),
            QueryStepModel::Done(_) => (0, 0, 0),
        }
    }

    /// Where the pass that this step belongs to ends, when the caller answers
    /// every step of it with what the page says: the outcome of the query, or
    /// the first lookup of the next pass.
    pub open spec fn end_of_pass(self, page: Page<E>, elapsed: u64) -> QueryStepModel<E>
        decreases self.distance().0, self.distance().1, self.distance().2,
    {
        if !self.in_progress() {
            self
        } else {
            let next = self.answered(page, elapsed);
            if next.begins_pass() || !next.in_progress() {
                next
            } else {
                next.end_of_pass(page, elapsed)
            }
        }
    }
}

/// In a branch without filters every element passes.
proof fn survivors_without_filters<E>(query: QueryModel, page: Page<E>, branch: nat, count: nat)
    requires
        branch < query.selectors.len(),
        query.selectors[branch as int].filters.len() == 0,
    ensures
        survivors(query, page, branch, count) == Ok::<Seq<nat>, E>(
            Seq::new(count, |i: int| i as nat),
        ),
    decreases count,
{
    if count > 0 {
        survivors_without_filters(query, page, branch, (count - 1) as nat);
        assert(Seq::new((count - 1) as nat, |i: int| i as nat).push((count - 1) as nat)
            =~= Seq::new(count, |i: int| i as nat));
    } else {
        assert(Seq::new(0nat, |i: int| i as nat) =~= Seq::<nat>::empty());
    }
}

/// The filtering of a branch, taken up at any point, ends the pass as the
/// branches from this one on decide.
proof fn filtering_ends_the_pass<E>(
    query: QueryModel,
    page: Page<E>,
    elapsed: u64,
    branch: nat,
    count: nat,
    element: nat,
    filter: nat,
    kept: Seq<nat>,
)
    requires
        branch < query.selectors.len(),
        yield_of(page, branch) == Ok::<nat, E>(count),
        element < count,
        filter < query.selectors[branch as int].filters.len(),
        survivors(query, page, branch, element) == Ok::<Seq<nat>, E>(kept),
        passes_from(query, page, branch, element, 0) == passes_from(
            query,
            page,
            branch,
            element,
            filter,
        ),
    ensures
        (QueryStepModel::<E>::Filter { query, branch, found: count, element, filter, kept })
            .end_of_pass(page, elapsed) == pass_result(query, page, branch, elapsed),
    decreases
            query.selectors.len() - branch,
            1int,
            count - element,
            query.selectors[branch as int].filters.len() - filter,
{
    let filters = query.selectors[branch as int].filters.len();
    let verdict = (page.holds)(branch, element, filter);
    if verdict == Ok::<bool, E>(true) && filter + 1 < filters {
        filtering_ends_the_pass(query, page, elapsed, branch, count, element, filter + 1, kept);
    } else {
        // The element is dealt with, or the query is over.
        assert(passes_from(query, page, branch, element, filter + 1) == Ok::<bool, E>(true)
            || verdict != Ok::<bool, E>(true));
        match passes_from(query, page, branch, element, 0) {
            Ok(passed) => {
                let now = if passed {
                    kept.push(element)
                } else {
                    kept
                };
                if element + 1 < count {
                    filtering_ends_the_pass(
                        query,
                        page,
                        elapsed,
                        branch,
                        count,
                        element + 1,
                        0,
                        now,
                    );
                } else {
                    branch_ends_the_pass(query, page, elapsed, branch, now);
                }
            },
            Err(e) => {
                survivors_fail_for_good(query, page, branch, element + 1, count, e);
            },
        }
    }
}

/// Once the filtering of an element has failed, so has that of every longer
/// list of elements.
proof fn survivors_fail_for_good<E>(
    query: QueryModel,
    page: Page<E>,
    branch: nat,
    failed: nat,
    count: nat,
    error: E,
)
    requires
        failed <= count,
        survivors(query, page, branch, failed) == Err::<Seq<nat>, E>(error),
    ensures
        survivors(query, page, branch, count) == Err::<Seq<nat>, E>(error),
    decreases count - failed,
{
    if failed < count {
        survivors_fail_for_good(query, page, branch, failed, (count - 1) as nat, error);
    }
}

/// Once a branch is done, the pass ends as the branches from this one on
/// decide.
proof fn branch_ends_the_pass<E>(
    query: QueryModel,
    page: Page<E>,
    elapsed: u64,
    branch: nat,
    kept: Seq<nat>,
)
    requires
        branch < query.selectors.len(),
        match yield_of(page, branch) {
            Ok(count) => survivors(query, page, branch, count) == Ok::<Seq<nat>, E>(kept),
            Err(_) => false,
        },
    ensures
        ({
            let next = query.after_branch::<E>(branch, kept, elapsed);
            (if next.begins_pass() || !next.in_progress() {
                next
            } else {
                next.end_of_pass(page, elapsed)
            }) == pass_result(query, page, branch, elapsed)
        }),
    decreases query.selectors.len() - branch, 0int, 0int, 0int,
{
    if kept.len() == 0 {
        if branch + 1 < query.selectors.len() {
            lookup_ends_the_pass(query, page, elapsed, branch + 1, 0);
        }
    }
}

/// The lookup of a branch ends the pass as the branches from this one on
/// decide.
proof fn lookup_ends_the_pass<E>(
    query: QueryModel,
    page: Page<E>,
    elapsed: u64,
    branch: nat,
    sleep: nat,
)
    requires
        branch < query.selectors.len(),
    ensures
        (QueryStepModel::<E>::Find { query, branch, sleep }).end_of_pass(page, elapsed)
            == pass_result(query, page, branch, elapsed),
    decreases query.selectors.len() - branch, 2int, 0int, 0int,
{
    match yield_of(page, branch) {
        Ok(count) => {
            if count == 0 {
                branch_ends_the_pass(query, page, elapsed, branch, Seq::empty());
            } else if query.selectors[branch as int].filters.len() == 0 {
                survivors_without_filters(query, page, branch, count);
                branch_ends_the_pass(
                    query,
                    page,
                    elapsed,
                    branch,
                    Seq::new(count, |i: int| i as nat),
                );
            } else {
                filtering_ends_the_pass(query, page, elapsed, branch, count, 0, 0, Seq::empty());
            }
        },
        Err(_) => {},
    }
}

/// Branch priority. Whatever the page answers, a pass of a query comes to
/// what the branches decide in the order of their declaration: the first
/// branch of which an element passes every filter wins, with exactly those of
/// its elements that pass, in the order in which they were found. Branches
/// after it are not looked up, and nothing of a branch before it is in the
/// result. A lookup or a filter that fails on the way ends the query with its
/// error. Where no branch has an element that passes, the pass ends without a
/// winner and the poller decides.
pub proof fn first_matching_branch_wins<E>(
    query: QueryModel,
    page: Page<E>,
    elapsed: u64,
    sleep: nat,
)
    requires
        query.selectors.len() > 0,
    ensures
        (QueryStepModel::<E>::Find { query, branch: 0, sleep }).end_of_pass(page, elapsed)
            == pass_result(query, page, 0, elapsed),
{
    lookup_ends_the_pass(query, page, elapsed, 0, sleep);
}

/// What every step of a query carries along.
#[derive(Debug)]
struct QueryRun {
    selectors: Vec<ElementSelector>,
    message: String,
    mode: QueryMode,
    ticker: ElementPollerTicker,
}

/// The views of the branches, in order.
pub open spec fn branches(selectors: Seq<ElementSelector>) -> Seq<SelectorView> {
    selectors.map_values(|selector: ElementSelector| selector@)
}

impl View for QueryRun {
    type V = QueryModel;

    closed spec fn view(&self) -> QueryModel {
        QueryModel {
            selectors: branches(self.selectors@),
            message: self.message,
            mode: self.mode,
            ticker: self.ticker@,
        }
    }
}

/// A query that waits for the result of a lookup.
#[derive(Debug)]
pub struct Finding {
    run: QueryRun,
    branch: usize,
}

/// A query that waits for the verdict of a filter on an element.
#[derive(Debug)]
pub struct Filtering {
    run: QueryRun,
    branch: usize,
    found: usize,
    element: usize,
    filter: usize,
    kept: Vec<usize>,
}

/// A query that waits for a lookup, as far as the decisions go.
pub struct FindingView {
    pub query: QueryModel,
    pub branch: nat,
}

impl View for Finding {
    type V = FindingView;

    closed spec fn view(&self) -> FindingView {
        FindingView { query: self.run@, branch: self.branch as nat }
    }
}

/// Where the filtering of a branch stands, as far as the decisions go.
pub struct FilteringView {
    pub query: QueryModel,
    pub branch: nat,
    pub found: nat,
    pub element: nat,
    pub filter: nat,
    pub kept: Seq<nat>,
}

impl View for Filtering {
    type V = FilteringView;

    closed spec fn view(&self) -> FilteringView {
        FilteringView {
            query: self.run@,
            branch: self.branch as nat,
            found: self.found as nat,
            element: self.element as nat,
            filter: self.filter as nat,
            kept: places(self.kept@),
        }
    }
}

/// What a query asks of its caller next.
#[derive(Debug)]
pub enum QueryStep<E> {
    /// Sleep for `sleep` nanoseconds, look up the selector of the branch that
    /// `query` names, and hand the result to [`Finding::found`].
    Find { query: Finding, sleep: u128 },
    /// Evaluate the filter that the query names on the element that it names,
    /// and hand the verdict to [`Filtering::judged`].
    Filter(Filtering),
    /// The query is over.
    Done(QueryOutcome<E>),
}

impl<E> View for QueryStep<E> {
    type V = QueryStepModel<E>;

    open spec fn view(&self) -> QueryStepModel<E> {
        match *self {
            QueryStep::Find { query, sleep } => QueryStepModel::Find {
                query: query@.query,
                branch: query@.branch,
                sleep: sleep as nat,
            },
            QueryStep::Filter(query) => QueryStepModel::Filter {
                query: query@.query,
                branch: query@.branch,
                found: query@.found,
                element: query@.element,
                filter: query@.filter,
                kept: query@.kept,
            },
            QueryStep::Done(outcome) => QueryStepModel::Done(outcome@),
        }
    }
}

/// The places `0` to `count - 1`, in order.
fn all_places(count: usize) -> (kept: Vec<usize>)
    ensures
        places(kept@) == Seq::new(count as nat, |i: int| i as nat),
{
    let mut kept: Vec<usize> = Vec::new();
    let mut place: usize = 0;
    while place < count
        invariant
            place <= count,
            kept@.len() == place,
            forall|i: int| 0 <= i < place ==> kept@[i] == i,
        decreases count - place,
    {
        kept.push(place);
        place += 1;
    }
    kept
}

impl QueryRun {
    fn won<E>(&self, branch: usize, kept: Vec<usize>) -> (outcome: QueryOutcome<E>)
        requires
            kept@.len() > 0,
        ensures
            outcome@ == self@.won::<E>(branch as nat, places(kept@)),
    {
        match self.mode {
            QueryMode::First => QueryOutcome::First { branch, element: kept[0] },
            QueryMode::All => QueryOutcome::All { branch, elements: kept },
            QueryMode::Exists => QueryOutcome::Answer(true),
            QueryMode::NotExists => QueryOutcome::Answer(false),
        }
    }

    fn end_of_pass<E>(self, elapsed: u64) -> (step: QueryStep<E>)
        requires
            self@.ticker.tries < u32::MAX,
            self@.selectors.len() > 0,
        ensures
            step@ == self@.end_of_pass::<E>(elapsed),
    {
        let QueryRun { selectors, message, mode, mut ticker } = self;
        if ticker.tick(elapsed) {
            let sleep: u128 = ticker.remaining_wait(elapsed);
            QueryStep::Find {
                query: Finding { run: QueryRun { selectors, message, mode, ticker }, branch: 0 },
                sleep,
            }
        } else {
            let outcome = match mode {
                QueryMode::First => QueryOutcome::NotFound(message),
                QueryMode::All => QueryOutcome::NotFound(message),
                QueryMode::Exists => QueryOutcome::Answer(false),
                QueryMode::NotExists => QueryOutcome::Answer(true),
            };
            QueryStep::Done(outcome)
        }
    }

    fn next_branch<E>(self, branch: usize, elapsed: u64) -> (step: QueryStep<E>)
        requires
            self@.ticker.tries < u32::MAX,
            branch < self@.selectors.len(),
        ensures
            step@ == self@.next_branch::<E>(branch as nat, elapsed),
    {
        let count: usize = self.selectors.len();
        if branch + 1 < count {
            QueryStep::Find { query: Finding { run: self, branch: branch + 1 }, sleep: 0 }
        } else {
            self.end_of_pass(elapsed)
        }
    }

    fn after_branch<E>(self, branch: usize, kept: Vec<usize>, elapsed: u64) -> (step: QueryStep<E>)
        requires
            self@.ticker.tries < u32::MAX,
            branch < self@.selectors.len(),
        ensures
            step@ == self@.after_branch::<E>(branch as nat, places(kept@), elapsed),
    {
        if kept.len() > 0 {
            QueryStep::Done(self.won(branch, kept))
        } else {
            self.next_branch(branch, elapsed)
        }
    }

    fn after_element<E>(
        self,
        branch: usize,
        found: usize,
        element: usize,
        kept: Vec<usize>,
        elapsed: u64,
    ) -> (step: QueryStep<E>)
        requires
            self@.ticker.tries < u32::MAX,
            branch < self@.selectors.len(),
            self@.selectors[branch as int].filters.len() > 0,
            element < found,
            ascending_below(kept@, element + 1),
        ensures
            step@ == self@.after_element::<E>(
                branch as nat,
                found as nat,
                element as nat,
                places(kept@),
                elapsed,
            ),
    {
        if element + 1 < found {
            QueryStep::Filter(
                Filtering { run: self, branch, found, element: element + 1, filter: 0, kept },
            )
        } else {
            self.after_branch(branch, kept, elapsed)
        }
    }
}

/// The places are in ascending order and all of them are below `bound`.
pub open spec fn ascending_below(kept: Seq<usize>, bound: int) -> bool {
    &&& forall|i: int, j: int| 0 <= i < j < kept.len() ==> kept[i] < kept[j]
    &&& forall|i: int| 0 <= i < kept.len() ==> kept[i] < bound
}

impl Finding {
    #[verifier::type_invariant]
    spec fn well_formed(self) -> bool {
        self.branch < self.run.selectors@.len()
    }

    /// The place of the branch whose selector is to be looked up.
    pub fn branch(&self) -> (branch: usize)
        ensures
            branch == self@.branch,
            branch < self@.query.selectors.len(),
    {
        proof {
            use_type_invariant(self);
        }
        self.branch
    }

    /// The selector to look up.
    pub fn selector(&self) -> (selector: &ElementSelector)
        ensures
            selector@ == self@.query.selectors[self@.branch as int],
    {
        proof {
            use_type_invariant(self);
        }
        &self.run.selectors[self.branch]
    }

    /// The number of times the poller has been asked for another pass.
    pub fn tries(&self) -> (n: u32)
        ensures
            n == self@.query.ticker.tries,
    {
        self.run.ticker.tries()
    }

    /// Takes the result of the lookup, the number of elements found or why
    /// there is none, and the time elapsed since the query began.
    pub fn found<E>(
        self,
        result: Result<usize, FindFailure<E>>,
        elapsed: u64,
    ) -> (step: QueryStep<E>)
        requires
            self@.query.ticker.tries < u32::MAX,
        ensures
            step@ == self@.query.found(self@.branch, result, elapsed),
    {
        proof {
            use_type_invariant(&self);
        }
        let Finding { run, branch } = self;
        match result {
            Err(FindFailure::Other(e)) => QueryStep::Done(QueryOutcome::Aborted(e)),
            Err(FindFailure::NoSuchElement) => run.next_branch(branch, elapsed),
            Ok(count) => {
                if count == 0 {
                    run.next_branch(branch, elapsed)
                } else if run.selectors[branch].filters.len() == 0 {
                    let kept = all_places(count);
                    run.after_branch(branch, kept, elapsed)
                } else {
                    let kept: Vec<usize> = Vec::new();
                    assert(places(kept@) =~= Seq::<nat>::empty());
                    QueryStep::Filter(
                        Filtering { run, branch, found: count, element: 0, filter: 0, kept },
                    )
                }
            },
        }
    }
}

impl Filtering {
    #[verifier::type_invariant]
    spec fn well_formed(self) -> bool {
        &&& self.branch < self.run.selectors@.len()
        &&& self.element < self.found
        &&& self.filter < self.run.selectors@[self.branch as int].filters@.len()
        &&& ascending_below(self.kept@, self.element as int)
    }

    /// The place of the branch that is being filtered.
    pub fn branch(&self) -> (branch: usize)
        ensures
            branch == self@.branch,
            branch < self@.query.selectors.len(),
    {
        proof {
            use_type_invariant(self);
        }
        self.branch
    }

    /// The place of the element to evaluate the filter on, in the list that
    /// the lookup returned.
    pub fn element(&self) -> (element: usize)
        ensures
            element == self@.element,
            element < self@.found,
    {
        proof {
            use_type_invariant(self);
        }
        self.element
    }

    /// The place of the filter to evaluate, among the filters of the branch.
    pub fn filter(&self) -> (filter: usize)
        ensures
            filter == self@.filter,
            filter < self@.query.selectors[self@.branch as int].filters.len(),
    {
        proof {
            use_type_invariant(self);
        }
        self.filter
    }

    /// The filter to evaluate.
    pub fn predicate(&self) -> (predicate: &ElementPredicate)
        ensures
            *predicate == self@.query.selectors[self@.branch as int].filters[self@.filter as int],
    {
        proof {
            use_type_invariant(self);
        }
        &self.run.selectors[self.branch].filters[self.filter]
    }

    /// The number of times the poller has been asked for another pass.
    pub fn tries(&self) -> (n: u32)
        ensures
            n == self@.query.ticker.tries,
    {
        self.run.ticker.tries()
    }

    /// Takes the verdict of the filter on the element and the time elapsed
    /// since the query began.
    pub fn judged<E>(self, verdict: Result<bool, E>, elapsed: u64) -> (step: QueryStep<E>)
        requires
            self@.query.ticker.tries < u32::MAX,
        ensures
            step@ == self@.query.judged(
                self@.branch,
                self@.found,
                self@.element,
                self@.filter,
                self@.kept,
                verdict,
                elapsed,
            ),
    {
        proof {
            use_type_invariant(&self);
        }
        let Filtering { run, branch, found, element, filter, mut kept } = self;
        let filters: usize = run.selectors[branch].filters.len();
        match verdict {
            Ok(true) => {
                if filter + 1 < filters {
                    QueryStep::Filter(
                        Filtering { run, branch, found, element, filter: filter + 1, kept },
                    )
                } else {
                    let ghost before = kept@;
                    kept.push(element);
                    assert(places(kept@) =~= places(before).push(element as nat));
                    run.after_element(branch, found, element, kept, elapsed)
                }
            },
            Ok(false) => run.after_element(branch, found, element, kept, elapsed),
            Err(e) => QueryStep::Done(QueryOutcome::Aborted(e)),
        }
    }
}


/// The selectors of the branches, in order, with a comma between two of them.
pub open spec fn selector_list(selectors: Seq<SelectorView>) -> Seq<char>
    decreases selectors.len(),
{
    if selectors.len() == 0 {
        Seq::empty()
    } else if selectors.len() == 1 {
        selectors[0].by@
    } else {
        selector_list(selectors.drop_last()) + ","@ + selectors.last().by@
    }
}

/// The selectors of the branches as a list in square brackets.
pub open spec fn selector_summary(selectors: Seq<SelectorView>) -> Seq<char> {
    "["@ + selector_list(selectors) + "]"@
}

/// What a query that finds nothing reports: what was looked for, by its
/// description where it has one, and the selectors that were tried.
pub open spec fn not_found_message(description: Seq<char>, selectors: Seq<SelectorView>) -> Seq<
    char,
> {
    (if description.len() == 0 {
        "Element(s)"@
    } else {
        "'"@ + description + "' element(s)"@
    }) + " not found using selectors: "@ + selector_summary(selectors)
}

fn get_selector_summary(selectors: &Vec<ElementSelector>) -> (summary: String)
    ensures
        summary@ == selector_summary(branches(selectors@)),
{
    let mut summary = String::from_str("[");
    let mut at: usize = 0;
    while at < selectors.len()
        invariant
            at <= selectors.len(),
            summary@ == "["@ + selector_list(branches(selectors@).take(at as int)),
        decreases selectors.len() - at,
    {
        let ghost before = branches(selectors@).take(at as int);
        let ghost now = branches(selectors@).take(at + 1);
        assert(now.drop_last() == before);
        if at > 0 {
            summary.append(",");
        }
        summary.append(selectors[at].by.as_str());
        at += 1;
    }
    assert(branches(selectors@).take(at as int) == branches(selectors@));
    summary.append("]");
    summary
}

fn no_such_element(selectors: &Vec<ElementSelector>, description: &str) -> (message: String)
    ensures
        message@ == not_found_message(description@, branches(selectors@)),
{
    let mut message = if description.is_empty() {
        String::from_str("Element(s)")
    } else {
        let mut quoted = String::from_str("'");
        quoted.append(description);
        quoted.append("' element(s)");
        quoted
    };
    message.append(" not found using selectors: ");
    let summary = get_selector_summary(selectors);
    message.append(summary.as_str());
    message
}

/// What an [`ElementQuery`] is set to.
pub struct QueryView {
    pub poller: ElementPoller,
    pub selectors: Seq<SelectorView>,
    pub ignore_errors: bool,
    pub description: Seq<char>,
}

impl QueryView {
    /// The query with one more filter on its last branch.
    pub open spec fn with_filter(self, f: ElementPredicate) -> QueryView {
        if self.selectors.len() == 0 {
            self
        } else {
            let last = self.selectors.last();
            QueryView {
                selectors: self.selectors.drop_last().push(
                    SelectorView { filters: last.filters.push(f), ..last },
                ),
                ..self
            }
        }
    }

    /// The query with one more filter on its last branch: the condition that
    /// `state` reads as `expected`.
    pub open spec fn with_state(self, state: ElementState, expected: bool) -> QueryView {
        self.with_filter(ElementPredicate::on_state(state, expected, self.ignore_errors))
    }

    /// `later` is this query with one more filter on its last branch: the
    /// condition made of `checks`, in the `has` or the `lacks` form.
    pub open spec fn with_texts(self, later: QueryView, checks: Seq<TextCheck>, lacks: bool)
        -> bool {
        exists|f: ElementPredicate|
            #![trigger f.is_on_texts(checks, lacks, self.ignore_errors)]
            f.is_on_texts(checks, lacks, self.ignore_errors) && later == self.with_filter(f)
    }

    /// `step` is the first step of this query in the given mode.
    pub open spec fn begins<E>(self, step: QueryStepModel<E>, mode: QueryMode) -> bool {
        exists|message: String|
            #![trigger message@]
            message@ == not_found_message(self.description, self.selectors) && step == (QueryModel {
                selectors: self.selectors,
                message,
                mode,
                ticker: TickerState::initial(self.poller),
            }).start::<E>()
    }
}

/// High-level interface for performing powerful element queries using a
/// builder pattern.
#[derive(Debug, Clone)]
pub struct ElementQuery {
    poller: ElementPoller,
    selectors: Vec<ElementSelector>,
    ignore_errors: bool,
    description: String,
}

impl View for ElementQuery {
    type V = QueryView;

    closed spec fn view(&self) -> QueryView {
        QueryView {
            poller: self.poller,
            selectors: branches(self.selectors@),
            ignore_errors: self.ignore_errors,
            description: self.description@,
        }
    }
}

impl ElementQuery {
    /// A query with one branch, for the selector `by`. It ignores errors and
    /// has no description.
    pub fn new(poller: ElementPoller, by: String) -> (query: Self)
        ensures
            query@ == (QueryView {
                poller,
                selectors: seq![SelectorView { by, filters: Seq::empty() }],
                ignore_errors: true,
                description: Seq::empty(),
            }),
    {
        let selectors: Vec<ElementSelector> = vec![ElementSelector::new(by)];
        assert(branches(selectors@) =~= seq![SelectorView { by, filters: Seq::empty() }]);
        Self { poller, selectors, ignore_errors: true, description: String::new() }
    }

    /// Provide a name that will be included in the error message if the query
    /// was not successful.
    pub fn desc(self, description: &str) -> (query: Self)
        ensures
            query@ == (QueryView { description: description@, ..self@ }),
    {
        Self { description: String::from_str(description), ..self }
    }

    /// By default a query will ignore any errors that occur while polling for
    /// the desired element(s). With `false` the query ends early with the
    /// first error instead. This applies to the filters added afterwards.
    pub fn ignore_errors(self, ignore: bool) -> (query: Self)
        ensures
            query@ == (QueryView { ignore_errors: ignore, ..self@ }),
    {
        Self { ignore_errors: ignore, ..self }
    }

    /// Use the specified ElementPoller for this ElementQuery.
    pub fn with_poller(self, poller: ElementPoller) -> (query: Self)
        ensures
            query@ == (QueryView { poller, ..self@ }),
    {
        Self { poller, ..self }
    }

    /// Force this ElementQuery to wait for the specified timeout, polling once
    /// after each interval.
    pub fn wait(self, timeout: u64, interval: u64) -> (query: Self)
        ensures
            query@ == (QueryView {
                poller: ElementPoller::TimeoutWithInterval(timeout, interval),
                ..self@
            }),
    {
        self.with_poller(ElementPoller::TimeoutWithInterval(timeout, interval))
    }

    /// Force this ElementQuery to not wait for the specified condition(s).
    pub fn nowait(self) -> (query: Self)
        ensures
            query@ == (QueryView { poller: ElementPoller::NoWait, ..self@ }),
    {
        self.with_poller(ElementPoller::NoWait)
    }

    fn add_selector(self, selector: ElementSelector) -> (query: Self)
        ensures
            query@ == (QueryView { selectors: self@.selectors.push(selector@), ..self@ }),
    {
        let ElementQuery { poller, mut selectors, ignore_errors, description } = self;
        let ghost before = selectors@;
        selectors.push(selector);
        assert(branches(selectors@) =~= branches(before).push(selector@));
        Self { poller, selectors, ignore_errors, description }
    }

    /// Add the specified selector to this ElementQuery, as a branch to try
    /// when those before it have yielded nothing.
    pub fn or(self, by: String) -> (query: Self)
        ensures
            query@ == (QueryView {
                selectors: self@.selectors.push(SelectorView { by, filters: Seq::empty() }),
                ..self@
            }),
    {
        self.add_selector(ElementSelector::new(by))
    }

    fn run_poller<E>(self, mode: QueryMode) -> (step: QueryStep<E>)
        ensures
            self@.begins(step@, mode),
    {
        let message = no_such_element(&self.selectors, self.description.as_str());
        let ticker = ElementPollerTicker::new(self.poller);
        let run = QueryRun { selectors: self.selectors, message, mode, ticker };
        if run.selectors.len() == 0 {
            QueryStep::Done(QueryOutcome::NotFound(run.message))
        } else {
            QueryStep::Find { query: Finding { run, branch: 0 }, sleep: 0 }
        }
    }

    /// Whether any branch yields an element before the poller gives up.
    pub fn does_exist<E>(self) -> (step: QueryStep<E>)
        ensures
            self@.begins(step@, QueryMode::Exists),
    {
        self.run_poller(QueryMode::Exists)
    }

    /// Whether no branch yields an element before the poller gives up.
    pub fn not_exists<E>(self) -> (step: QueryStep<E>)
        ensures
            self@.begins(step@, QueryMode::NotExists),
    {
        self.run_poller(QueryMode::NotExists)
    }

    /// The first element of the first branch that yields one.
    pub fn first<E>(self) -> (step: QueryStep<E>)
        ensures
            self@.begins(step@, QueryMode::First),
    {
        self.run_poller(QueryMode::First)
    }

    /// All elements of the first branch that yields any. Like
    /// [`first`](Self::first) it fails where no branch yields an element.
    pub fn all<E>(self) -> (step: QueryStep<E>)
        ensures
            self@.begins(step@, QueryMode::All),
    {
        self.run_poller(QueryMode::All)
    }

    /// Add the specified filter to the last selector.
    pub fn with_filter(self, f: ElementPredicate) -> (query: Self)
        ensures
            query@ == self@.with_filter(f),
    {
        let ElementQuery { poller, mut selectors, ignore_errors, description } = self;
        let ghost before = selectors@;
        match selectors.pop() {
            Some(mut selector) => {
                let ghost last = selector@;
                selector.add_filter(f);
                selectors.push(selector);
                assert(branches(selectors@) =~= branches(before).drop_last().push(
                    SelectorView { filters: last.filters.push(f), ..last },
                ));
            },
            None => {},
        }
        Self { poller, selectors, ignore_errors, description }
    }

    /// Add a filter on texts of the element to the last selector.
    fn with_text_filter(self, f: ElementPredicate) -> (query: Self)
        ensures
            forall|checks: Seq<TextCheck>, lacks: bool, ignore: bool|
                #[trigger] f.is_on_texts(checks, lacks, ignore) && ignore == self@.ignore_errors
                    ==> self@.with_texts(query@, checks, lacks),
    {
        self.with_filter(f)
    }

    /// Only match elements that are enabled.
    pub fn and_enabled(self) -> (query: Self)
        ensures
            query@ == self@.with_state(ElementState::Enabled, true),
    {
        let ignore_errors = self.ignore_errors;
        self.with_filter(element_is_enabled(ignore_errors))
    }

    /// Only match elements that are NOT enabled.
    pub fn and_not_enabled(self) -> (query: Self)
        ensures
            query@ == self@.with_state(ElementState::Enabled, false),
    {
        let ignore_errors = self.ignore_errors;
        self.with_filter(element_is_not_enabled(ignore_errors))
    }

    /// Only match elements that are selected.
    pub fn and_selected(self) -> (query: Self)
        ensures
            query@ == self@.with_state(ElementState::Selected, true),
    {
        let ignore_errors = self.ignore_errors;
        self.with_filter(element_is_selected(ignore_errors))
    }

    /// Only match elements that are NOT selected.
    pub fn and_not_selected(self) -> (query: Self)
        ensures
            query@ == self@.with_state(ElementState::Selected, false),
    {
        let ignore_errors = self.ignore_errors;
        self.with_filter(element_is_not_selected(ignore_errors))
    }

    /// Only match elements that are displayed.
    pub fn and_displayed(self) -> (query: Self)
        ensures
            query@ == self@.with_state(ElementState::Displayed, true),
    {
        let ignore_errors = self.ignore_errors;
        self.with_filter(element_is_displayed(ignore_errors))
    }

    /// Only match elements that are NOT displayed.
    pub fn and_not_displayed(self) -> (query: Self)
        ensures
            query@ == self@.with_state(ElementState::Displayed, false),
    {
        let ignore_errors = self.ignore_errors;
        self.with_filter(element_is_not_displayed(ignore_errors))
    }

    /// Only match elements that are clickable.
    pub fn and_clickable(self) -> (query: Self)
        ensures
            query@ == self@.with_state(ElementState::Clickable, true),
    {
        let ignore_errors = self.ignore_errors;
        self.with_filter(element_is_clickable(ignore_errors))
    }

    /// Only match elements that are NOT clickable.
    pub fn and_not_clickable(self) -> (query: Self)
        ensures
            query@ == self@.with_state(ElementState::Clickable, false),
    {
        let ignore_errors = self.ignore_errors;
        self.with_filter(element_is_not_clickable(ignore_errors))
    }

    /// Only match elements with a text that matches the needle.
    pub fn with_text(self, text: StringMatch) -> (query: Self)
        ensures
            self@.with_texts(
                query@,
                seq![TextCheck { source: ElementText::Text, needle: text }],
                false,
            ),
    {
        let f = element_has_text(text, self.ignore_errors);
        self.with_text_filter(f)
    }

    /// Only match elements with a text that does not match the needle.
    pub fn without_text(self, text: StringMatch) -> (query: Self)
        ensures
            self@.with_texts(
                query@,
                seq![TextCheck { source: ElementText::Text, needle: text }],
                true,
            ),
    {
        let f = element_lacks_text(text, self.ignore_errors);
        self.with_text_filter(f)
    }

    /// Only match elements with a id that matches the needle.
    pub fn with_id(self, id: StringMatch) -> (query: Self)
        ensures
            self@.with_texts(
                query@,
                seq![TextCheck { source: ElementText::Id, needle: id }],
                false,
            ),
    {
        let f = ElementPredicate::on_text(ElementText::Id, id, false, self.ignore_errors);
        self.with_text_filter(f)
    }

    /// Only match elements with a id that does not match the needle.
    pub fn without_id(self, id: StringMatch) -> (query: Self)
        ensures
            self@.with_texts(query@, seq![TextCheck { source: ElementText::Id, needle: id }], true),
    {
        let f = ElementPredicate::on_text(ElementText::Id, id, true, self.ignore_errors);
        self.with_text_filter(f)
    }

    /// Only match elements with a class name that matches the needle.
    pub fn with_class(self, class_name: StringMatch) -> (query: Self)
        ensures
            self@.with_texts(
                query@,
                seq![TextCheck { source: ElementText::ClassName, needle: class_name }],
                false,
            ),
    {
        let f = element_has_class(class_name, self.ignore_errors);
        self.with_text_filter(f)
    }

    /// Only match elements with a class name that does not match the needle.
    pub fn without_class(self, class_name: StringMatch) -> (query: Self)
        ensures
            self@.with_texts(
                query@,
                seq![TextCheck { source: ElementText::ClassName, needle: class_name }],
                true,
            ),
    {
        let f = element_lacks_class(class_name, self.ignore_errors);
        self.with_text_filter(f)
    }

    /// Only match elements with a tag name that matches the needle.
    pub fn with_tag(self, tag_name: StringMatch) -> (query: Self)
        ensures
            self@.with_texts(
                query@,
                seq![TextCheck { source: ElementText::TagName, needle: tag_name }],
                false,
            ),
    {
        let f = ElementPredicate::on_text(
            ElementText::TagName,
            tag_name,
            false,
            self.ignore_errors,
        );
        self.with_text_filter(f)
    }

    /// Only match elements with a tag name that does not match the needle.
    pub fn without_tag(self, tag_name: StringMatch) -> (query: Self)
        ensures
            self@.with_texts(
                query@,
                seq![TextCheck { source: ElementText::TagName, needle: tag_name }],
                true,
            ),
    {
        let f = ElementPredicate::on_text(ElementText::TagName, tag_name, true, self.ignore_errors);
        self.with_text_filter(f)
    }

    /// Only match elements with a value that matches the needle.
    pub fn with_value(self, value: StringMatch) -> (query: Self)
        ensures
            self@.with_texts(
                query@,
                seq![TextCheck { source: ElementText::Value, needle: value }],
                false,
            ),
    {
        let f = element_has_value(value, self.ignore_errors);
        self.with_text_filter(f)
    }

    /// Only match elements with a value that does not match the needle.
    pub fn without_value(self, value: StringMatch) -> (query: Self)
        ensures
            self@.with_texts(
                query@,
                seq![TextCheck { source: ElementText::Value, needle: value }],
                true,
            ),
    {
        let f = element_lacks_value(value, self.ignore_errors);
        self.with_text_filter(f)
    }

    /// Only match elements whose attribute of this name matches the needle.
    pub fn with_attribute(self, attribute_name: String, value: StringMatch) -> (query: Self)
        ensures
            self@.with_texts(
                query@,
                seq![TextCheck { source: ElementText::Attribute(attribute_name), needle: value }],
                false,
            ),
    {
        let f = element_has_attribute(attribute_name, value, self.ignore_errors);
        self.with_text_filter(f)
    }

    /// Only match elements whose attribute of this name does not match the needle.
    pub fn without_attribute(self, attribute_name: String, value: StringMatch) -> (query: Self)
        ensures
            self@.with_texts(
                query@,
                seq![TextCheck { source: ElementText::Attribute(attribute_name), needle: value }],
                true,
            ),
    {
        let f = element_lacks_attribute(attribute_name, value, self.ignore_errors);
        self.with_text_filter(f)
    }

    /// Only match elements of which every listed attribute matches its needle.
    pub fn with_attributes(self, desired_attributes: Vec<(String, StringMatch)>) -> (query: Self)
        ensures
            self@.with_texts(query@, checks_on_attributes(desired_attributes@), false),
    {
        let f = element_has_attributes(desired_attributes, self.ignore_errors);
        self.with_text_filter(f)
    }

    /// Only match elements of which not every listed attribute matches its
    /// needle.
    pub fn without_attributes(self, desired_attributes: Vec<(String, StringMatch)>) -> (query: Self)
        ensures
            self@.with_texts(query@, checks_on_attributes(desired_attributes@), true),
    {
        let f = element_lacks_attributes(desired_attributes, self.ignore_errors);
        self.with_text_filter(f)
    }

    /// Only match elements whose property of this name matches the needle.
    pub fn with_property(self, property_name: String, value: StringMatch) -> (query: Self)
        ensures
            self@.with_texts(
                query@,
                seq![TextCheck { source: ElementText::Property(property_name), needle: value }],
                false,
            ),
    {
        let f = element_has_property(property_name, value, self.ignore_errors);
        self.with_text_filter(f)
    }

    /// Only match elements whose property of this name does not match the needle.
    pub fn without_property(self, property_name: String, value: StringMatch) -> (query: Self)
        ensures
            self@.with_texts(
                query@,
                seq![TextCheck { source: ElementText::Property(property_name), needle: value }],
                true,
            ),
    {
        let f = element_lacks_property(property_name, value, self.ignore_errors);
        self.with_text_filter(f)
    }

    /// Only match elements of which every listed property matches its needle.
    pub fn with_properties(self, desired_properties: Vec<(String, StringMatch)>) -> (query: Self)
        ensures
            self@.with_texts(query@, checks_on_properties(desired_properties@), false),
    {
        let f = element_has_properties(desired_properties, self.ignore_errors);
        self.with_text_filter(f)
    }

    /// Only match elements of which not every listed property matches its
    /// needle.
    pub fn without_properties(self, desired_properties: Vec<(String, StringMatch)>) -> (query: Self)
        ensures
            self@.with_texts(query@, checks_on_properties(desired_properties@), true),
    {
        let f = element_lacks_properties(desired_properties, self.ignore_errors);
        self.with_text_filter(f)
    }

    /// Only match elements whose CSS property of this name matches the needle.
    pub fn with_css_property(self, css_property_name: String, value: StringMatch) -> (query: Self)
        ensures
            self@.with_texts(
                query@,
                seq![TextCheck {
                    source: ElementText::CssProperty(css_property_name),
                    needle: value,
                }],
                false,
            ),
    {
        let f = element_has_css_property(css_property_name, value, self.ignore_errors);
        self.with_text_filter(f)
    }

    /// Only match elements whose CSS property of this name does not match the needle.
    pub fn without_css_property(
        self,
        css_property_name: String,
        value: StringMatch,
    ) -> (query: Self)
        ensures
            self@.with_texts(
                query@,
                seq![TextCheck {
                    source: ElementText::CssProperty(css_property_name),
                    needle: value,
                }],
                true,
            ),
    {
        let f = element_lacks_css_property(css_property_name, value, self.ignore_errors);
        self.with_text_filter(f)
    }

    /// Only match elements of which every listed CSS property matches its needle.
    pub fn with_css_properties(
        self,
        desired_css_properties: Vec<(String, StringMatch)>,
    ) -> (query: Self)
        ensures
            self@.with_texts(query@, checks_on_css_properties(desired_css_properties@), false),
    {
        let f = element_has_css_properties(desired_css_properties, self.ignore_errors);
        self.with_text_filter(f)
    }

    /// Only match elements of which not every listed CSS property matches its
    /// needle.
    pub fn without_css_properties(
        self,
        desired_css_properties: Vec<(String, StringMatch)>,
    ) -> (query: Self)
        ensures
            self@.with_texts(query@, checks_on_css_properties(desired_css_properties@), true),
    {
        let f = element_lacks_css_properties(desired_css_properties, self.ignore_errors);
        self.with_text_filter(f)
    }
}

} // verus!
