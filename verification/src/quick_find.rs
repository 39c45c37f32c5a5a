//! Find-in-view: which rows are inspected, in which order, and where a search starts.
use vstd::prelude::*;
use crate::regions::{DocumentLoadState, LogRegion, SearchScope};
use crate::workspace::Workspace;

verus! {

/// The view a quick find searches.
#[derive(Clone, Copy, Debug, PartialEq, Eq, Structural)]
pub enum QuickFindTarget {
    Log(u64),
    Results(u64),
    GlobalResults,
}

#[derive(Clone, Copy, Debug, PartialEq, Eq, Structural)]
pub enum QuickFindDirection {
    Forward,
    Backward,
}

/// The end of the view a search ran into.
#[derive(Clone, Copy, Debug, PartialEq, Eq, Structural)]
pub enum QuickFindBoundary {
    Start,
    End,
}

/// A row that matched.
#[derive(Clone, Copy, Debug, PartialEq, Eq, Structural)]
pub struct QuickFindMatch {
    pub target: QuickFindTarget,
    pub view_row: usize,
    pub source_row: usize,
}

/// One file's rows in the global results, starting at a view row.
#[derive(Clone, Debug)]
pub struct QuickFindGroup {
    pub view_start: usize,
    /// The source row of each result row.
    pub rows: Vec<usize>,
}

/// The rows a quick find reads.
#[derive(Clone, Debug)]
pub enum QuickFindSource {
    /// A document's lines, or a projection of them: view row `i` shows source row `rows[i]`
    /// (or `i` itself past the projection or without one).
    Document { rows: Option<Vec<usize>>, row_count: usize },
    /// The global results, file by file.
    Global(Vec<QuickFindGroup>),
}

/// The outcome of inspecting one row.
#[derive(Clone, Copy, Debug, PartialEq, Eq, Structural)]
pub enum LineCheck {
    Matched,
    NoMatch,
    /// The work was cancelled.
    Cancelled,
    /// The row's line could not be read from its file.
    SourceUnavailable,
}

/// The outcome of a quick find.
#[derive(Clone, Copy, Debug, PartialEq, Eq, Structural)]
pub enum QuickFindOutcome {
    Completed(Option<QuickFindMatch>),
    Cancelled,
    SourceUnavailable,
}

pub open spec fn sat_add(a: int, b: int) -> usize {
    if a + b <= usize::MAX { (a + b) as usize } else { usize::MAX }
}

/// The source row of a view row of a document source.
pub open spec fn spec_document_source_row(rows: Option<Seq<usize>>, view_row: int) -> usize {
    match rows {
        Some(rows) => if 0 <= view_row < rows.len() { rows[view_row] } else { view_row as usize },
        None => view_row as usize,
    }
}

/// The (view row, source row) pairs a forward search of a document inspects: from `start` to
/// the last row.
pub open spec fn spec_document_forward(rows: Option<Seq<usize>>, start: int, row_count: int) -> Seq<(usize, usize)> {
    Seq::new(if row_count > start { (row_count - start) as nat } else { 0 },
        |i: int| ((start + i) as usize, spec_document_source_row(rows, start + i)))
}

/// The pairs a backward search of a document inspects: from `start` (at most the last row)
/// down to the first row.
pub open spec fn spec_document_backward(rows: Option<Seq<usize>>, start: int, row_count: int) -> Seq<(usize, usize)> {
    if row_count <= 0 {
        Seq::empty()
    } else {
        let top = if start < row_count - 1 { start } else { row_count - 1 };
        Seq::new((top + 1) as nat, |i: int| ((top - i) as usize, spec_document_source_row(rows, top - i)))
    }
}

/// The first result index of a group at or after view row `start`.
pub open spec fn spec_group_first(view_start: int, len: int, start: int) -> int {
    let offset = if start >= view_start { start - view_start } else { 0 };
    if offset < len { offset } else { len }
}

/// The pairs a forward search inspects in one group.
pub open spec fn spec_group_forward(view_start: usize, rows: Seq<usize>, start: int) -> Seq<(usize, usize)> {
    let first = spec_group_first(view_start as int, rows.len() as int, start);
    Seq::new((rows.len() - first) as nat, |i: int| (sat_add(view_start as int, first + i), rows[first + i]))
}

/// The pairs a backward search inspects in one group.
pub open spec fn spec_group_backward(view_start: usize, rows: Seq<usize>, start: int) -> Seq<(usize, usize)> {
    if rows.len() == 0 || start < view_start {
        Seq::empty()
    } else {
        let last = if start - view_start < rows.len() - 1 { start - view_start } else { rows.len() - 1 };
        Seq::new((last + 1) as nat, |i: int| (sat_add(view_start as int, last - i), rows[last - i]))
    }
}

/// The pairs a forward search of the global results inspects: group by group.
pub open spec fn spec_global_forward(groups: Seq<QuickFindGroup>, start: int) -> Seq<(usize, usize)>
    decreases groups.len(),
{
    if groups.len() == 0 {
        Seq::empty()
    } else {
        let last = groups.last();
        spec_global_forward(groups.drop_last(), start) + spec_group_forward(last.view_start, last.rows@, start)
    }
}

/// The pairs a backward search of the global results inspects: from the last group back.
pub open spec fn spec_global_backward(groups: Seq<QuickFindGroup>, start: int) -> Seq<(usize, usize)>
    decreases groups.len(),
{
    if groups.len() == 0 {
        Seq::empty()
    } else {
        let last = groups.last();
        spec_group_backward(last.view_start, last.rows@, start) + spec_global_backward(groups.drop_last(), start)
    }
}

/// The pairs a quick find inspects, in order.
pub open spec fn spec_quick_find_order(source: QuickFindSource, direction: QuickFindDirection, start: usize) -> Seq<(usize, usize)> {
    match source {
        QuickFindSource::Document { rows, row_count } => {
            let rows = match rows { Some(r) => Some(r@), None => None };
            if direction == QuickFindDirection::Forward {
                spec_document_forward(rows, start as int, row_count as int)
            } else {
                spec_document_backward(rows, start as int, row_count as int)
            }
        },
        QuickFindSource::Global(groups) => if direction == QuickFindDirection::Forward {
            spec_global_forward(groups@, start as int)
        } else {
            spec_global_backward(groups@, start as int)
        },
    }
}

/// Whether `inspect` may answer `check` for a pair.
pub open spec fn answers<F: Fn(usize, usize) -> LineCheck>(inspect: F, pair: (usize, usize), check: LineCheck) -> bool {
    inspect.ensures((pair.0, pair.1), check)
}

/// The outcome of a search over `order`: the first pair whose inspection did not answer
/// `NoMatch` decides it; a search that inspected every pair without a match completes with none.
pub open spec fn spec_search_outcome<F: Fn(usize, usize) -> LineCheck>(
    inspect: F,
    target: QuickFindTarget,
    order: Seq<(usize, usize)>,
    outcome: QuickFindOutcome,
) -> bool {
    match outcome {
        QuickFindOutcome::Completed(None) => forall|j: int| 0 <= j < order.len() ==> #[trigger] answers(inspect, order[j], LineCheck::NoMatch),
        _ => exists|k: int| 0 <= k < order.len() && ({
            &&& forall|j: int| 0 <= j < k ==> #[trigger] answers(inspect, order[j], LineCheck::NoMatch)
            &&& match outcome {
                QuickFindOutcome::Completed(Some(m)) => m == (QuickFindMatch { target, view_row: order[k].0, source_row: order[k].1 })
                    && answers(inspect, order[k], LineCheck::Matched),
                QuickFindOutcome::Cancelled => answers(inspect, order[k], LineCheck::Cancelled),
                QuickFindOutcome::SourceUnavailable => answers(inspect, order[k], LineCheck::SourceUnavailable),
                _ => false,
            }
        }),
    }
}

/// The outcome a decisive inspection gives.
pub open spec fn spec_decisive(target: QuickFindTarget, pair: (usize, usize), check: LineCheck) -> QuickFindOutcome {
    match check {
        LineCheck::Matched => QuickFindOutcome::Completed(Some(QuickFindMatch { target, view_row: pair.0, source_row: pair.1 })),
        LineCheck::Cancelled => QuickFindOutcome::Cancelled,
        _ => QuickFindOutcome::SourceUnavailable,
    }
}

proof fn lemma_decided<F: Fn(usize, usize) -> LineCheck>(
    inspect: F,
    target: QuickFindTarget,
    order: Seq<(usize, usize)>,
    k: int,
    check: LineCheck,
)
    requires
        0 <= k < order.len(),
        check != LineCheck::NoMatch,
        answers(inspect, order[k], check),
        forall|j: int| 0 <= j < k ==> #[trigger] answers(inspect, order[j], LineCheck::NoMatch),
    ensures
        spec_search_outcome(inspect, target, order, spec_decisive(target, order[k], check)),
{
}

fn decisive(target: QuickFindTarget, view_row: usize, source_row: usize, check: LineCheck) -> (outcome: QuickFindOutcome)
    ensures
        outcome == spec_decisive(target, (view_row, source_row), check),
{
    match check {
        LineCheck::Matched => QuickFindOutcome::Completed(Some(QuickFindMatch { target, view_row, source_row })),
        LineCheck::Cancelled => QuickFindOutcome::Cancelled,
        _ => QuickFindOutcome::SourceUnavailable,
    }
}

fn document_source_row(rows: &Option<Vec<usize>>, view_row: usize) -> (source_row: usize)
    ensures
        source_row == spec_document_source_row(match rows { Some(r) => Some(r@), None => None }, view_row as int),
{
    match rows {
        Some(rows) => if view_row < rows.len() { rows[view_row] } else { view_row },
        None => view_row,
    }
}

proof fn lemma_global_forward_step(groups: Seq<QuickFindGroup>, g: int, start: int)
    requires
        0 <= g < groups.len(),
    ensures
        spec_global_forward(groups.take(g + 1), start)
            == spec_global_forward(groups.take(g), start) + spec_group_forward(groups[g].view_start, groups[g].rows@, start),
{
    assert(groups.take(g + 1).drop_last() =~= groups.take(g));
}

proof fn lemma_global_backward_step(groups: Seq<QuickFindGroup>, g: int, start: int)
    requires
        0 <= g < groups.len(),
    ensures
        spec_global_backward(groups.take(g + 1), start)
            == spec_group_backward(groups[g].view_start, groups[g].rows@, start) + spec_global_backward(groups.take(g), start),
{
    assert(groups.take(g + 1).drop_last() =~= groups.take(g));
}

fn find_document_forward<F: Fn(usize, usize) -> LineCheck>(
    rows: &Option<Vec<usize>>,
    row_count: usize,
    target: QuickFindTarget,
    start: usize,
    inspect: F,
) -> (outcome: QuickFindOutcome)
    requires
        forall|v: usize, r: usize| inspect.requires((v, r)),
    ensures
        spec_search_outcome(inspect, target,
            spec_document_forward(match rows { Some(r) => Some(r@), None => None }, start as int, row_count as int), outcome),
{
    let ghost order = spec_document_forward(match rows { Some(r) => Some(r@), None => None }, start as int, row_count as int);
    let mut view_row = start;
    while view_row < row_count
        invariant
            forall|v: usize, r: usize| inspect.requires((v, r)),
            order == spec_document_forward(match rows { Some(r) => Some(r@), None => None }, start as int, row_count as int),
            start <= view_row,
            forall|j: int| 0 <= j < view_row - start ==> #[trigger] answers(inspect, order[j], LineCheck::NoMatch),
        decreases row_count - view_row,
    {
        let source_row = document_source_row(rows, view_row);
        let check = inspect(view_row, source_row);
        let ghost k = view_row - start;
        assert(order[k] == (view_row, source_row));
        if check != LineCheck::NoMatch {
            proof { lemma_decided(inspect, target, order, k, check); }
            return decisive(target, view_row, source_row, check);
        }
        view_row = view_row + 1;
    }
    QuickFindOutcome::Completed(None)
}

fn find_document_backward<F: Fn(usize, usize) -> LineCheck>(
    rows: &Option<Vec<usize>>,
    row_count: usize,
    target: QuickFindTarget,
    start: usize,
    inspect: F,
) -> (outcome: QuickFindOutcome)
    requires
        forall|v: usize, r: usize| inspect.requires((v, r)),
    ensures
        spec_search_outcome(inspect, target,
            spec_document_backward(match rows { Some(r) => Some(r@), None => None }, start as int, row_count as int), outcome),
{
    let ghost order = spec_document_backward(match rows { Some(r) => Some(r@), None => None }, start as int, row_count as int);
    if row_count == 0 {
        return QuickFindOutcome::Completed(None);
    }
    let top = if start < row_count - 1 { start } else { row_count - 1 };
    let mut done: usize = 0;
    while done <= top
        invariant
            forall|v: usize, r: usize| inspect.requires((v, r)),
            order == spec_document_backward(match rows { Some(r) => Some(r@), None => None }, start as int, row_count as int),
            row_count > 0,
            top == (if start < row_count - 1 { start } else { (row_count - 1) as usize }),
            done <= top + 1,
            forall|j: int| 0 <= j < done ==> #[trigger] answers(inspect, order[j], LineCheck::NoMatch),
        decreases top + 1 - done,
    {
        let view_row = top - done;
        let source_row = document_source_row(rows, view_row);
        let check = inspect(view_row, source_row);
        assert(order[done as int] == (view_row, source_row));
        if check != LineCheck::NoMatch {
            proof { lemma_decided(inspect, target, order, done as int, check); }
            return decisive(target, view_row, source_row, check);
        }
        done = done + 1;
    }
    assert(order.len() == top + 1);
    QuickFindOutcome::Completed(None)
}

fn find_global_forward<F: Fn(usize, usize) -> LineCheck>(
    groups: &Vec<QuickFindGroup>,
    target: QuickFindTarget,
    start: usize,
    inspect: F,
) -> (outcome: QuickFindOutcome)
    requires
        forall|v: usize, r: usize| inspect.requires((v, r)),
    ensures
        spec_search_outcome(inspect, target, spec_global_forward(groups@, start as int), outcome),
{
    let ghost order = spec_global_forward(groups@, start as int);
    let mut g: usize = 0;
    while g < groups.len()
        invariant
            forall|v: usize, r: usize| inspect.requires((v, r)),
            order == spec_global_forward(groups@, start as int),
            g <= groups.len(),
            forall|j: int| 0 <= j < spec_global_forward(groups@.take(g as int), start as int).len()
                ==> #[trigger] answers(inspect, order[j], LineCheck::NoMatch),
        decreases groups.len() - g,
    {
        let group = &groups[g];
        let len = group.rows.len();
        let offset = start.saturating_sub(group.view_start);
        let first = if offset < len { offset } else { len };
        let ghost before = spec_global_forward(groups@.take(g as int), start as int);
        let ghost here = spec_group_forward(group.view_start, group.rows@, start as int);
        proof {
            lemma_global_forward_step(groups@, g as int, start as int);
            lemma_global_forward_prefix(groups@, g as int + 1, start as int);
            assert((before + here).is_prefix_of(order));
        }
        let mut ix = first;
        while ix < len
            invariant
                forall|v: usize, r: usize| inspect.requires((v, r)),
                first <= ix <= len,
                len == group.rows.len(),
                first == spec_group_first(group.view_start as int, len as int, start as int),
                here == spec_group_forward(group.view_start, group.rows@, start as int),
                order == spec_global_forward(groups@, start as int),
                (before + here).is_prefix_of(order),
                forall|j: int| 0 <= j < before.len() + (ix - first) ==> #[trigger] answers(inspect, order[j], LineCheck::NoMatch),
            decreases len - ix,
        {
            let source_row = group.rows[ix];
            let view_row = group.view_start.saturating_add(ix);
            let check = inspect(view_row, source_row);
            let ghost k = before.len() + (ix - first);
            assert(here[ix - first] == (view_row, source_row));
            assert((before + here)[k] == here[ix - first]);
            assert(order[k] == (before + here)[k]);
            if check != LineCheck::NoMatch {
                proof { lemma_decided(inspect, target, order, k, check); }
                return decisive(target, view_row, source_row, check);
            }
            ix = ix + 1;
        }
        g = g + 1;
    }
    assert(groups@.take(g as int) =~= groups@);
    QuickFindOutcome::Completed(None)
}

fn find_global_backward<F: Fn(usize, usize) -> LineCheck>(
    groups: &Vec<QuickFindGroup>,
    target: QuickFindTarget,
    start: usize,
    inspect: F,
) -> (outcome: QuickFindOutcome)
    requires
        forall|v: usize, r: usize| inspect.requires((v, r)),
    ensures
        spec_search_outcome(inspect, target, spec_global_backward(groups@, start as int), outcome),
{
    let ghost order = spec_global_backward(groups@, start as int);
    assert(groups@.take(groups.len() as int) =~= groups@);
    assert(order.subrange(0, order.len() as int) =~= order);
    let mut done: usize = 0;
    while done < groups.len()
        invariant
            forall|v: usize, r: usize| inspect.requires((v, r)),
            order == spec_global_backward(groups@, start as int),
            done <= groups.len(),
            ({
                let rest = spec_global_backward(groups@.take(groups.len() - done), start as int);
                &&& order.len() >= rest.len()
                &&& order.subrange(order.len() - rest.len(), order.len() as int) == rest
                &&& forall|j: int| 0 <= j < order.len() - rest.len() ==> #[trigger] answers(inspect, order[j], LineCheck::NoMatch)
            }),
        decreases groups.len() - done,
    {
        let g = groups.len() - 1 - done;
        let group = &groups[g];
        let len = group.rows.len();
        let ghost rest_after = spec_global_backward(groups@.take(g as int), start as int);
        let ghost here = spec_group_backward(group.view_start, group.rows@, start as int);
        proof {
            lemma_global_backward_step(groups@, g as int, start as int);
            assert(g as int + 1 == groups.len() - done);
        }
        let ghost base = order.len() - (here + rest_after).len();
        if len > 0 && start >= group.view_start {
            let offset = start - group.view_start;
            let last = if offset < len - 1 { offset } else { len - 1 };
            let mut back: usize = 0;
            while back <= last
                invariant
                    forall|v: usize, r: usize| inspect.requires((v, r)),
                    back <= last + 1,
                    len == group.rows.len(),
                    len > 0,
                    start >= group.view_start,
                    last == (if start - group.view_start < len - 1 { (start - group.view_start) as usize } else { (len - 1) as usize }),
                    here == spec_group_backward(group.view_start, group.rows@, start as int),
                    order == spec_global_backward(groups@, start as int),
                    base == order.len() - (here + rest_after).len(),
                    base >= 0,
                    order.subrange(base, order.len() as int) == here + rest_after,
                    forall|j: int| 0 <= j < base + back ==> #[trigger] answers(inspect, order[j], LineCheck::NoMatch),
                decreases last + 1 - back,
            {
                let ix = last - back;
                let source_row = group.rows[ix];
                let view_row = group.view_start.saturating_add(ix);
                let check = inspect(view_row, source_row);
                let ghost k = base + back;
                assert(here[back as int] == (view_row, source_row));
                assert((here + rest_after)[back as int] == here[back as int]);
                assert(order.subrange(base, order.len() as int)[back as int] == order[k]);
                if check != LineCheck::NoMatch {
                    proof { lemma_decided(inspect, target, order, k, check); }
                    return decisive(target, view_row, source_row, check);
                }
                back = back + 1;
            }
            assert(here.len() == last + 1);
        }
        proof {
            let whole = order.subrange(base, order.len() as int);
            assert(whole.subrange(here.len() as int, whole.len() as int) =~= rest_after);
            assert(order.subrange(order.len() - rest_after.len(), order.len() as int) =~= rest_after);
        }
        done = done + 1;
    }
    proof {
        assert(groups@.take(0) =~= Seq::<QuickFindGroup>::empty());
    }
    QuickFindOutcome::Completed(None)
}

impl<P: Copy> Workspace<P> {
    /// Searches `source` from view row `start` in `direction` for the first row that
    /// `inspect` reports as matching.
    ///
    /// `inspect(view_row, source_row)` reads the row's line and matches it; it reports
    /// cancellation and unreadable lines too. Rows are inspected in the order of
    /// `spec_quick_find_order`, and the first answer other than `NoMatch` decides the outcome.
    pub fn find_quick_match<F: Fn(usize, usize) -> LineCheck>(
        source: &QuickFindSource,
        target: QuickFindTarget,
        direction: QuickFindDirection,
        start: usize,
        inspect: F,
    ) -> (outcome: QuickFindOutcome)
        requires
            forall|v: usize, r: usize| inspect.requires((v, r)),
        ensures
            spec_search_outcome(inspect, target, spec_quick_find_order(*source, direction, start), outcome),
    {
        match source {
            QuickFindSource::Document { rows, row_count } => match direction {
                QuickFindDirection::Forward => find_document_forward(rows, *row_count, target, start, inspect),
                QuickFindDirection::Backward => find_document_backward(rows, *row_count, target, start, inspect),
            },
            QuickFindSource::Global(groups) => match direction {
                QuickFindDirection::Forward => find_global_forward(groups, target, start, inspect),
                QuickFindDirection::Backward => find_global_backward(groups, target, start, inspect),
            },
        }
    }
}

proof fn lemma_global_forward_prefix(groups: Seq<QuickFindGroup>, g: int, start: int)
    requires
        0 <= g <= groups.len(),
    ensures
        spec_global_forward(groups.take(g), start).is_prefix_of(spec_global_forward(groups, start)),
    decreases groups.len() - g,
{
    if g < groups.len() {
        lemma_global_forward_prefix(groups, g + 1, start);
        lemma_global_forward_step(groups, g, start);
    } else {
        assert(groups.take(g) =~= groups);
    }
}

/// The state of the find-in-view bar.
#[derive(Clone, Copy, Debug, PartialEq, Eq, Structural)]
pub struct QuickFindState {
    pub open: bool,
    pub target: Option<QuickFindTarget>,
    /// The view row a search without a current match starts from.
    pub anchor: usize,
    pub case_sensitive: bool,
    pub whole_word: bool,
    pub regex: bool,
    /// The query compiles to a matcher.
    pub has_matcher: bool,
    pub matched: Option<QuickFindMatch>,
    /// An incremental search found nothing.
    pub no_match: bool,
    /// The last search ran into this end of the view.
    pub boundary: Option<QuickFindBoundary>,
    /// A search is running.
    pub busy: bool,
    pub direction: Option<QuickFindDirection>,
    /// Identifies the running search: a search whose revision is stale is ignored.
    pub revision: u64,
}

/// The boundary a search in `direction` runs into.
pub open spec fn spec_boundary_of(direction: QuickFindDirection) -> QuickFindBoundary {
    if direction == QuickFindDirection::Forward { QuickFindBoundary::End } else { QuickFindBoundary::Start }
}

fn boundary_of(direction: QuickFindDirection) -> (boundary: QuickFindBoundary)
    ensures
        boundary == spec_boundary_of(direction),
{
    match direction {
        QuickFindDirection::Forward => QuickFindBoundary::End,
        QuickFindDirection::Backward => QuickFindBoundary::Start,
    }
}

/// The view row a search starts from: the row after (or before) the current match of the same
/// target when stepping, else the anchor within the view (or the row before it); `None` when
/// the view's end is already reached.
pub open spec fn spec_quick_find_start(
    direction: QuickFindDirection,
    current: Option<QuickFindMatch>,
    anchor: usize,
    row_count: usize,
) -> Option<usize> {
    let anchor = if anchor < row_count - 1 { anchor as int } else { row_count - 1 };
    match current {
        Some(m) => if direction == QuickFindDirection::Forward {
            if m.view_row + 1 < row_count { Some((m.view_row + 1) as usize) } else { None }
        } else {
            if m.view_row >= 1 { Some((m.view_row - 1) as usize) } else { None }
        },
        None => if direction == QuickFindDirection::Forward {
            Some(anchor as usize)
        } else {
            if anchor >= 1 { Some((anchor - 1) as usize) } else { None }
        },
    }
}

/// What a quick-find request does.
#[derive(Clone, Copy, Debug, PartialEq, Eq, Structural)]
pub enum QuickFindStart {
    /// Nothing was started.
    Idle,
    /// The view's end is reached: the search stops at the boundary.
    AtBoundary,
    /// Search the view from this row with the state's revision.
    Search { start: usize },
}

impl QuickFindState {
    /// Drops the current match.
    pub fn clear_match(&mut self)
        ensures
            *final(self) == (QuickFindState { matched: None, ..*old(self) }),
    {
        self.matched = None;
    }

    /// Abandons the running search: its revision goes stale.
    pub fn cancel_work(&mut self)
        ensures
            *final(self) == (QuickFindState { revision: old(self).revision.wrapping_add(1), ..*old(self) }),
    {
        self.revision = self.revision.wrapping_add(1);
    }
}

/// The state a search request leaves and what it starts (see `start_quick_find_with_matcher`).
pub open spec fn spec_start_search(
    pre: QuickFindState,
    target: QuickFindTarget,
    direction: QuickFindDirection,
    incremental: bool,
    row_count: usize,
    matched_source_current: bool,
) -> (QuickFindState, QuickFindStart) {
    let boundary = spec_boundary_of(direction);
    let stopped = QuickFindState {
        busy: false,
        direction: None,
        no_match: pre.no_match || incremental,
        boundary: Some(boundary),
        ..pre
    };
    let matched = if pre.matched is Some && !matched_source_current { None } else { pre.matched };
    let current = if !incremental && matched is Some && matched->0.target == target { matched } else { None };
    if row_count == 0 {
        (stopped, QuickFindStart::AtBoundary)
    } else if !incremental && pre.boundary == Some(boundary) {
        (QuickFindState { busy: false, direction: None, ..pre }, QuickFindStart::Idle)
    } else {
        match spec_quick_find_start(direction, current, pre.anchor, row_count) {
            None => (QuickFindState { matched, ..stopped }, QuickFindStart::AtBoundary),
            Some(start) => (QuickFindState {
                matched,
                revision: pre.revision.wrapping_add(1),
                busy: true,
                direction: Some(direction),
                boundary: None,
                ..pre
            }, QuickFindStart::Search { start }),
        }
    }
}

fn quick_find_start(
    direction: QuickFindDirection,
    current: Option<QuickFindMatch>,
    anchor: usize,
    row_count: usize,
) -> (start: Option<usize>)
    requires
        row_count > 0,
    ensures
        start == spec_quick_find_start(direction, current, anchor, row_count),
{
    let anchor = if anchor < row_count - 1 { anchor } else { row_count - 1 };
    match current {
        Some(m) => match direction {
            QuickFindDirection::Forward => if m.view_row < row_count - 1 { Some(m.view_row + 1) } else { None },
            QuickFindDirection::Backward => if m.view_row >= 1 { Some(m.view_row - 1) } else { None },
        },
        None => match direction {
            QuickFindDirection::Forward => Some(anchor),
            QuickFindDirection::Backward => if anchor >= 1 { Some(anchor - 1) } else { None },
        },
    }
}

impl QuickFindState {
    /// Updates the bar for a search request and tells where the search starts.
    pub fn start_search(
        &mut self,
        target: QuickFindTarget,
        direction: QuickFindDirection,
        incremental: bool,
        row_count: usize,
        matched_source_current: bool,
    ) -> (started: QuickFindStart)
        ensures
            (*final(self), started) == spec_start_search(*old(self), target, direction, incremental, row_count, matched_source_current),
    {
        let boundary = boundary_of(direction);
        if row_count == 0 {
            self.busy = false;
            self.direction = None;
            self.no_match = self.no_match || incremental;
            self.boundary = Some(boundary);
            return QuickFindStart::AtBoundary;
        }
        if !incremental && self.boundary == Some(boundary) {
            self.busy = false;
            self.direction = None;
            return QuickFindStart::Idle;
        }
        if self.matched.is_some() && !matched_source_current {
            self.clear_match();
        }
        let current = match self.matched {
            Some(m) => if !incremental && m.target == target { Some(m) } else { None },
            None => None,
        };
        match quick_find_start(direction, current, self.anchor, row_count) {
            None => {
                self.busy = false;
                self.direction = None;
                self.no_match = self.no_match || incremental;
                self.boundary = Some(boundary);
                QuickFindStart::AtBoundary
            },
            Some(start) => {
                self.cancel_work();
                self.busy = true;
                self.direction = Some(direction);
                self.boundary = None;
                QuickFindStart::Search { start }
            },
        }
    }
}

impl<P: Copy> Workspace<P> {
    /// Starts searching `target` for the bar's matcher in `direction`.
    ///
    /// `row_count` is the number of rows in the target's view; `matched_source_current` tells
    /// whether the view still shows the rows the current match was found in. An incremental
    /// search starts from the anchor; stepping starts next to the current match of the target.
    pub fn start_quick_find_with_matcher(
        &mut self,
        target: QuickFindTarget,
        direction: QuickFindDirection,
        incremental: bool,
        row_count: usize,
        matched_source_current: bool,
    ) -> (started: QuickFindStart)
        ensures
            (final(self).quick_find, started) == spec_start_search(old(self).quick_find, target, direction,
                incremental, row_count, matched_source_current),
            *final(self) == (Workspace { quick_find: final(self).quick_find, ..*old(self) }),
    {
        self.quick_find.start_search(target, direction, incremental, row_count, matched_source_current)
    }
}

/// What opening the find bar did.
#[derive(Clone, Copy, Debug, PartialEq, Eq, Structural)]
pub enum OpenQuickFind {
    /// No tab is active.
    NoDocument,
    /// The active tab is still being indexed.
    NotReady,
    /// The bar opened on `target` at `anchor`; with a query present an incremental forward
    /// search should start.
    Opened { target: QuickFindTarget, anchor: usize },
}

/// Where the keyboard focus goes.
#[derive(Clone, Copy, Debug, PartialEq, Eq, Structural)]
pub enum FocusTarget {
    LogViewer,
    ResultsViewer,
    Workspace,
}

/// What a find request does before the view is read.
#[derive(Clone, Copy, Debug, PartialEq, Eq, Structural)]
pub enum StartQuickFind {
    /// The bar is closed, it has no target, or the query does not compile.
    Nothing,
    /// The query is empty: the running search, match and boundary were cleared.
    Cleared,
    /// Search `target` with `start_quick_find_with_matcher`.
    Ready(QuickFindTarget),
}

/// The effects of showing a match.
#[derive(Clone, Copy, Debug, PartialEq, Eq, Structural)]
pub struct ShowMatch {
    /// The table whose active row becomes the match's view row, centered in its viewport.
    pub table: crate::log_presentation::TableRef,
    pub view_row: usize,
}

impl<P: Copy> Workspace<P> {
    /// The find target and anchor for the region the user last worked in: the global results
    /// when they are shown for a multi-file scope, the active tab's results when they are shown
    /// for the current-file scope, else the active tab's log. The anchor is that table's active
    /// row, or the first row.
    pub open spec fn spec_find_target(
        self,
        tab: crate::workspace::DocumentTab,
        global_active: Option<usize>,
        results_active: Option<usize>,
        log_active: Option<usize>,
    ) -> (QuickFindTarget, usize) {
        let unwrap = |row: Option<usize>| match row { Some(r) => r, None => 0usize };
        if self.last_user_log_region == LogRegion::GlobalResults
            && self.global_search.scope != SearchScope::CurrentFile && self.global_search.results_visible {
            (QuickFindTarget::GlobalResults, unwrap(global_active))
        } else if self.last_user_log_region == LogRegion::CurrentResults
            && self.global_search.scope == SearchScope::CurrentFile && tab.results_visible {
            (QuickFindTarget::Results(tab.id), unwrap(results_active))
        } else {
            (QuickFindTarget::Log(tab.id), unwrap(log_active))
        }
    }

    /// Opens the find bar on the view the user last worked in.
    ///
    /// The `*_active` rows are the active rows of the global table and of the active tab's
    /// results and log tables.
    pub fn open_quick_find(
        &mut self,
        global_active: Option<usize>,
        results_active: Option<usize>,
        log_active: Option<usize>,
    ) -> (opened: OpenQuickFind)
        ensures
            match old(self).spec_active_tab() {
                None => opened == OpenQuickFind::NoDocument && *final(self) == *old(self),
                Some(tab) => if tab.load_state != DocumentLoadState::Ready {
                    opened == OpenQuickFind::NotReady && *final(self) == *old(self)
                } else {
                    let (target, anchor) = old(self).spec_find_target(tab, global_active, results_active, log_active);
                    &&& opened == (OpenQuickFind::Opened { target, anchor })
                    &&& *final(self) == (Workspace {
                        quick_find: QuickFindState { open: true, target: Some(target), anchor, ..old(self).quick_find },
                        ..*old(self)
                    })
                },
            },
    {
        let ix = match self.active_ix {
            Some(ix) => ix,
            None => return OpenQuickFind::NoDocument,
        };
        if ix >= self.documents.len() {
            return OpenQuickFind::NoDocument;
        }
        if self.documents[ix].load_state != DocumentLoadState::Ready {
            return OpenQuickFind::NotReady;
        }
        let id = self.documents[ix].id;
        let (target, anchor) = if self.last_user_log_region == LogRegion::GlobalResults
            && self.global_search.scope != SearchScope::CurrentFile && self.global_search.results_visible {
            (QuickFindTarget::GlobalResults, match global_active { Some(r) => r, None => 0 })
        } else if self.last_user_log_region == LogRegion::CurrentResults
            && self.global_search.scope == SearchScope::CurrentFile && self.documents[ix].results_visible {
            (QuickFindTarget::Results(id), match results_active { Some(r) => r, None => 0 })
        } else {
            (QuickFindTarget::Log(id), match log_active { Some(r) => r, None => 0 })
        };
        self.quick_find.open = true;
        self.quick_find.target = Some(target);
        self.quick_find.anchor = anchor;
        OpenQuickFind::Opened { target, anchor }
    }

    /// The find input has the focus while the bar is open.
    pub fn quick_find_input_has_focus(&self, input_focused: bool) -> (focus: bool)
        ensures
            focus == (self.quick_find.open && input_focused),
    {
        self.quick_find.open && input_focused
    }

    /// Closes the find bar and returns the focus to the view it searched.
    pub fn close_quick_find(&mut self) -> (focus: FocusTarget)
        ensures
            focus == match old(self).quick_find.target {
                Some(QuickFindTarget::Log(_)) => FocusTarget::LogViewer,
                Some(_) => FocusTarget::ResultsViewer,
                None => FocusTarget::Workspace,
            },
            *final(self) == (Workspace { quick_find: QuickFindState { open: false, ..old(self).quick_find }, ..*old(self) }),
    {
        self.quick_find.open = false;
        match self.quick_find.target {
            Some(QuickFindTarget::Log(_)) => FocusTarget::LogViewer,
            Some(_) => FocusTarget::ResultsViewer,
            None => FocusTarget::Workspace,
        }
    }

    /// Abandons the running find.
    pub fn cancel_quick_find_work(&mut self)
        ensures
            *final(self) == (Workspace {
                quick_find: QuickFindState { revision: old(self).quick_find.revision.wrapping_add(1), ..old(self).quick_find },
                ..*old(self)
            }),
    {
        self.quick_find.cancel_work();
    }

    /// Records whether the query compiles with the bar's options.
    pub fn update_quick_find_matcher(&mut self, compiles: bool)
        ensures
            *final(self) == (Workspace { quick_find: QuickFindState { has_matcher: compiles, ..old(self).quick_find }, ..*old(self) }),
    {
        self.quick_find.has_matcher = compiles;
    }

    /// Restarts the find after the query or an option changed: the running search, the match
    /// and the boundary are dropped, and when the query is not empty and compiles a search is
    /// due after a short pause, tagged with the returned revision.
    pub fn schedule_incremental_quick_find(&mut self, query_empty: bool) -> (scheduled: Option<u64>)
        ensures
            ({
                let pre = old(self).quick_find;
                if !pre.open {
                    scheduled is None && *final(self) == *old(self)
                } else {
                    let post = QuickFindState {
                        revision: pre.revision.wrapping_add(1),
                        matched: None,
                        no_match: false,
                        boundary: None,
                        ..pre
                    };
                    &&& *final(self) == (Workspace { quick_find: post, ..*old(self) })
                    &&& scheduled == if query_empty || !pre.has_matcher { None } else { Some(post.revision) }
                }
            }),
    {
        if !self.quick_find.open {
            return None;
        }
        self.quick_find.cancel_work();
        self.quick_find.clear_match();
        self.quick_find.no_match = false;
        self.quick_find.boundary = None;
        if query_empty || !self.quick_find.has_matcher {
            return None;
        }
        Some(self.quick_find.revision)
    }

    /// Flips case sensitivity and restarts the find.
    pub fn toggle_quick_find_case_sensitive(&mut self, query_empty: bool) -> (scheduled: Option<u64>)
        ensures
            ({
                let flipped = Workspace {
                    quick_find: QuickFindState { case_sensitive: !old(self).quick_find.case_sensitive, ..old(self).quick_find },
                    ..*old(self)
                };
                flipped.spec_schedule_incremental(query_empty) == (*final(self), scheduled)
            }),
    {
        self.quick_find.case_sensitive = !self.quick_find.case_sensitive;
        self.schedule_incremental_quick_find(query_empty)
    }

    /// Flips whole-word matching and restarts the find.
    pub fn toggle_quick_find_whole_word(&mut self, query_empty: bool) -> (scheduled: Option<u64>)
        ensures
            ({
                let flipped = Workspace {
                    quick_find: QuickFindState { whole_word: !old(self).quick_find.whole_word, ..old(self).quick_find },
                    ..*old(self)
                };
                flipped.spec_schedule_incremental(query_empty) == (*final(self), scheduled)
            }),
    {
        self.quick_find.whole_word = !self.quick_find.whole_word;
        self.schedule_incremental_quick_find(query_empty)
    }

    /// Flips regular-expression matching and restarts the find.
    pub fn toggle_quick_find_regex(&mut self, query_empty: bool) -> (scheduled: Option<u64>)
        ensures
            ({
                let flipped = Workspace {
                    quick_find: QuickFindState { regex: !old(self).quick_find.regex, ..old(self).quick_find },
                    ..*old(self)
                };
                flipped.spec_schedule_incremental(query_empty) == (*final(self), scheduled)
            }),
    {
        self.quick_find.regex = !self.quick_find.regex;
        self.schedule_incremental_quick_find(query_empty)
    }

    /// The state and scheduled revision of `schedule_incremental_quick_find`.
    pub open spec fn spec_schedule_incremental(self, query_empty: bool) -> (Self, Option<u64>) {
        let pre = self.quick_find;
        if !pre.open {
            (self, None)
        } else {
            let post = QuickFindState {
                revision: pre.revision.wrapping_add(1),
                matched: None,
                no_match: false,
                boundary: None,
                ..pre
            };
            (Workspace { quick_find: post, ..self },
                if query_empty || !pre.has_matcher { None } else { Some(post.revision) })
        }
    }

    /// Decides what a find request does before reading the view. An empty query clears the
    /// running search, the match and the boundary.
    pub fn start_quick_find(&mut self, query_empty: bool) -> (start: StartQuickFind)
        ensures
            ({
                let pre = old(self).quick_find;
                if !pre.open {
                    start == StartQuickFind::Nothing && *final(self) == *old(self)
                } else if query_empty {
                    start == StartQuickFind::Cleared && *final(self) == (Workspace {
                        quick_find: QuickFindState {
                            revision: pre.revision.wrapping_add(1),
                            matched: None,
                            no_match: false,
                            boundary: None,
                            ..pre
                        },
                        ..*old(self)
                    })
                } else {
                    &&& *final(self) == *old(self)
                    &&& start == if pre.target is Some && pre.has_matcher {
                        StartQuickFind::Ready(pre.target->0)
                    } else {
                        StartQuickFind::Nothing
                    }
                }
            }),
    {
        if !self.quick_find.open {
            return StartQuickFind::Nothing;
        }
        if query_empty {
            self.quick_find.cancel_work();
            self.quick_find.clear_match();
            self.quick_find.no_match = false;
            self.quick_find.boundary = None;
            return StartQuickFind::Cleared;
        }
        match self.quick_find.target {
            Some(target) => if self.quick_find.has_matcher { StartQuickFind::Ready(target) } else { StartQuickFind::Nothing },
            None => StartQuickFind::Nothing,
        }
    }

    /// Shows a match: its row becomes the active row of its table, centered; the tab stops
    /// following appended lines and its selection moves to that table.
    pub fn apply_quick_find_match(&mut self, matched: QuickFindMatch) -> (shown: Option<ShowMatch>)
        ensures
            match matched.target {
                QuickFindTarget::GlobalResults => {
                    &&& shown == Some(ShowMatch { table: crate::log_presentation::TableRef::Global, view_row: matched.view_row })
                    &&& *final(self) == (Workspace { active_log_region: LogRegion::GlobalResults, ..*old(self) })
                },
                QuickFindTarget::Log(id) | QuickFindTarget::Results(id) => {
                    let results = matched.target is Results;
                    match crate::workspace::spec_first_tab(old(self).documents@, id) {
                        None => shown is None && *final(self) == *old(self),
                        Some(ix) => {
                            &&& shown == Some(ShowMatch {
                                table: if results { crate::log_presentation::TableRef::Results(id) } else { crate::log_presentation::TableRef::Log(id) },
                                view_row: matched.view_row,
                            })
                            &&& final(self).documents@ == old(self).documents@.update(ix, crate::workspace::DocumentTab {
                                auto_follow: false,
                                selection_table: if results { crate::workspace::SelectionTable::Results } else { crate::workspace::SelectionTable::Log },
                                ..old(self).documents@[ix]
                            })
                            &&& final(self).active_log_region == if results { LogRegion::CurrentResults } else { LogRegion::Body }
                            &&& final(self).selected_source_row == Some(matched.source_row)
                            &&& final(self).active_ix == old(self).active_ix
                            &&& final(self).global_search == old(self).global_search
                            &&& final(self).quick_find == old(self).quick_find
                            &&& final(self).row_drag_selection == old(self).row_drag_selection
                            &&& final(self).search_ranges == old(self).search_ranges
                        },
                    }
                },
            },
    {
        let (id, results) = match matched.target {
            QuickFindTarget::GlobalResults => {
                self.active_log_region = LogRegion::GlobalResults;
                return Some(ShowMatch { table: crate::log_presentation::TableRef::Global, view_row: matched.view_row });
            },
            QuickFindTarget::Log(id) => (id, false),
            QuickFindTarget::Results(id) => (id, true),
        };
        let ix = match crate::workspace::tab_ix(&self.documents, id) {
            Some(ix) => ix,
            None => return None,
        };
        self.documents[ix].auto_follow = false;
        self.documents[ix].selection_table = if results {
            crate::workspace::SelectionTable::Results
        } else {
            crate::workspace::SelectionTable::Log
        };
        self.active_log_region = if results { LogRegion::CurrentResults } else { LogRegion::Body };
        self.selected_source_row = Some(matched.source_row);
        Some(ShowMatch {
            table: if results { crate::log_presentation::TableRef::Results(id) } else { crate::log_presentation::TableRef::Log(id) },
            view_row: matched.view_row,
        })
    }
}

} // verus!
