//! Properties that hold across the workspace's operations.
use vstd::prelude::*;
use crate::log_viewport::spec_hit_row;
use crate::preferences::{spec_next_font_size, MAX_LOG_FONT_SIZE, MIN_LOG_FONT_SIZE};
use crate::regions::{LogRegion, SearchScope, WrappedRegion};
use crate::result_jumps::spec_jump_preload;
use crate::row_tags::{spec_tag_key, spec_insert_tag, spec_remove_tag, spec_tag_ix, spec_with_row, RowTag};
use crate::search_limits::{spec_range_or_default, FileSearchRanges, SearchRange};
use crate::row_drag::{spec_drag_plan, DragFrame, RowDragSelection};
use crate::workspace::{lemma_first_index, lemma_first_tab, spec_first_tab, DocumentTab, Workspace};
use crate::current_search::{spec_cancelled, spec_current_finished, spec_current_started, spec_scope_switched, CurrentSearchFinish, CurrentSearchStart, ScopeSwitch};
use crate::filter_saves::{spec_filter_finish, spec_filter_save, FilterSave, FilterSaveNotice, FilterSaves};
use crate::global_selection::{spec_kept_selection, spec_selection_applied, SelectionChange};
use crate::preferences::QueryOptions;
use crate::retained_context::{spec_captured_context, spec_context_restored, spec_scope_query, RetainedContext};
use crate::search_runs::{spec_tab_ids, Activity, SearchRunOutcome};

verus! {

/// Two scroll requests of a region before a frame leave only the later one: the frame takes
/// the later target, and nothing is left for the region after that.
pub proof fn law_scroll_requests_coalesce<T>(frames: Map<(u64, WrappedRegion), T>, key: (u64, WrappedRegion), first: T, later: T)
    ensures
        frames.insert(key, first).insert(key, later).dom().contains(key),
        frames.insert(key, first).insert(key, later)[key] == later,
        frames.insert(key, first).insert(key, later).remove(key) == frames.remove(key),
{
    assert(frames.insert(key, first).insert(key, later).remove(key) =~= frames.remove(key));
}

/// The rows prepared around a jump hold the target row and stay within the rows: where a
/// viewport shows any row and the target exists, the range starts at or before the target,
/// ends after it, and spans three viewports or all rows.
pub proof fn law_jump_preload_covers_target(target: int, count: int, visible: int)
    requires
        0 <= target < count,
        0 < visible,
    ensures
        ({
            let (start, end) = spec_jump_preload(target, count, visible);
            &&& 0 <= start <= target < end <= count
            &&& end - start == if 3 * visible <= count { 3 * visible } else { count }
        }),
{
}

/// Rows the last frame did not paint are never hit: without painted geometry, hit testing
/// finds no row.
pub proof fn law_no_hit_without_painted_rows<B, F: Fn(B) -> bool>(contains: F, hit: Option<usize>)
    requires
        spec_hit_row(Seq::<(usize, B)>::empty(), contains, hit),
    ensures
        hit is None,
{
}

/// The marks of a file carry each row and id once.
pub open spec fn spec_tag_keys_unique(tags: Seq<RowTag>) -> bool {
    forall|a: int, b: int| 0 <= a < b < tags.len() ==> !(tags[a].source_row == tags[b].source_row && tags[a].id@ == tags[b].id@)
}

proof fn lemma_tag_ix(tags: Seq<RowTag>, source_row: usize, id: Seq<char>)
    ensures
        match spec_tag_ix(tags, source_row, id) {
            Some(k) => 0 <= k < tags.len() && tags[k].source_row == source_row && tags[k].id@ == id
                && forall|j: int| 0 <= j < k ==> !(tags[j].source_row == source_row && tags[j].id@ == id),
            None => forall|j: int| 0 <= j < tags.len() ==> !(tags[j].source_row == source_row && tags[j].id@ == id),
        },
{
    lemma_first_index(tags, spec_tag_key(source_row, id), 0);
}

/// A saved mark is found again under its row and id, as saved.
pub proof fn law_saved_tag_is_found(tags: Seq<RowTag>, tag: RowTag)
    requires
        spec_tag_keys_unique(tags),
    ensures
        ({
            let saved = spec_insert_tag(tags, tag);
            &&& spec_tag_keys_unique(saved)
            &&& spec_tag_ix(saved, tag.source_row, tag.id@) matches Some(k) && saved[k] == tag
        }),
{
    let saved = spec_insert_tag(tags, tag);
    lemma_tag_ix(tags, tag.source_row, tag.id@);
    lemma_tag_ix(saved, tag.source_row, tag.id@);
    match spec_tag_ix(tags, tag.source_row, tag.id@) {
        Some(k) => {
            assert forall|a: int, b: int| 0 <= a < b < saved.len() implies
                !(saved[a].source_row == saved[b].source_row && saved[a].id@ == saved[b].id@) by {
                if a != k && b != k {
                    assert(saved[a] == tags[a] && saved[b] == tags[b]);
                } else if a == k {
                    assert(saved[b] == tags[b]);
                } else {
                    assert(saved[a] == tags[a]);
                }
            }
            assert(saved[k] == tag);
        },
        None => {
            let n = tags.len() as int;
            assert forall|a: int, b: int| 0 <= a < b < saved.len() implies
                !(saved[a].source_row == saved[b].source_row && saved[a].id@ == saved[b].id@) by {
                assert(saved[a] == tags[a]);
                if b < n {
                    assert(saved[b] == tags[b]);
                }
            }
            assert(saved[n] == tag);
        },
    }
    lemma_tag_ix(saved, tag.source_row, tag.id@);
}

/// A deleted mark is gone: where each row and id occurs once, the mark is no longer found
/// after its deletion, and the keys stay unique.
pub proof fn law_deleted_tag_is_gone(tags: Seq<RowTag>, source_row: usize, id: Seq<char>)
    requires
        spec_tag_keys_unique(tags),
    ensures
        spec_tag_keys_unique(spec_remove_tag(tags, source_row, id)),
        spec_tag_ix(spec_remove_tag(tags, source_row, id), source_row, id) is None,
{
    let left = spec_remove_tag(tags, source_row, id);
    lemma_tag_ix(tags, source_row, id);
    match spec_tag_ix(tags, source_row, id) {
        Some(k) => {
            assert forall|a: int, b: int| 0 <= a < b < left.len() implies
                !(left[a].source_row == left[b].source_row && left[a].id@ == left[b].id@) by {
                let a0 = if a < k { a } else { a + 1 };
                let b0 = if b < k { b } else { b + 1 };
                assert(left[a] == tags[a0] && left[b] == tags[b0]);
            }
            assert forall|j: int| 0 <= j < left.len() implies !(left[j].source_row == source_row && left[j].id@ == id) by {
                let j0 = if j < k { j } else { j + 1 };
                assert(left[j] == tags[j0]);
            }
        },
        None => {},
    }
    lemma_tag_ix(left, source_row, id);
}

/// A placed mark marks its row and keeps every marked row: it never toggles a mark off.
pub proof fn law_marking_keeps_marks(rows: Seq<usize>, row: usize, other: usize)
    ensures
        spec_with_row(rows, row).contains(row),
        spec_with_row(rows, row).contains(other) <==> rows.contains(other) || other == row,
{
    if !rows.contains(row) {
        let pushed = rows.push(row);
        assert(pushed[rows.len() as int] == row);
        if rows.contains(other) {
            let i = choose|i: int| 0 <= i < rows.len() && rows[i] == other;
            assert(pushed[i] == other);
        }
        if pushed.contains(other) {
            let i = choose|i: int| 0 <= i < pushed.len() && pushed[i] == other;
            if i < rows.len() {
                assert(rows[i] == other);
            }
        }
    }
}

/// Tabs with the same ids, in the same order, find the same first tab of an id.
proof fn lemma_first_tab_same_ids(a: Seq<DocumentTab>, b: Seq<DocumentTab>, document_id: u64, k: int)
    requires
        a.len() == b.len(),
        forall|j: int| 0 <= j < a.len() ==> #[trigger] a[j].id == b[j].id,
        0 <= k,
    ensures
        crate::workspace::spec_first_tab_from(a, document_id, k) == crate::workspace::spec_first_tab_from(b, document_id, k),
    decreases a.len() - k,
{
    if k < a.len() {
        lemma_first_tab_same_ids(a, b, document_id, k + 1);
    }
}

/// Placing a mark on the row a mark was just placed on changes no marked row of any tab:
/// placing marks is idempotent, so the second mark never unmarks the row.
pub proof fn law_second_mark_keeps_marks<P: Copy>(
    pre: Workspace<P>,
    mid: Workspace<P>,
    post: Workspace<P>,
    document_id: u64,
    row: usize,
    first: crate::row_tags::TagRefresh,
    second: crate::row_tags::TagRefresh,
)
    requires
        pre.spec_tag_changed(mid, document_id, Some(row), first),
        mid.spec_tag_changed(post, document_id, Some(row), second),
    ensures
        second == first,
        post.documents.len() == mid.documents.len(),
        forall|j: int| 0 <= j < post.documents.len() ==> {
            &&& (#[trigger] post.documents@[j]).marked_rows@ == mid.documents@[j].marked_rows@
            &&& post.documents@[j].pending_restore_marked_rows@ == mid.documents@[j].pending_restore_marked_rows@
        },
{
    lemma_first_tab(pre.documents@, document_id, 0);
    match spec_first_tab(pre.documents@, document_id) {
        None => {},
        Some(i) => {
            assert(mid.documents@[i].id == pre.documents@[i].id);
            lemma_first_tab_same_ids(pre.documents@, mid.documents@, document_id, 0);
            assert(spec_first_tab(mid.documents@, document_id) == Some(i));
            law_marking_keeps_marks(pre.documents@[i].marked_rows@, row, row);
            law_marking_keeps_marks(pre.documents@[i].pending_restore_marked_rows@, row, row);
        },
    }
}

/// Directory options read back from what was stored of them are the options stored, whatever
/// legacy file type an older store would stand for.
pub proof fn law_directory_options_round_trip(options: crate::workspace::DirectorySearchOptions, legacy: (bool, String))
    ensures
        crate::directory_options::spec_restored_options(crate::directory_options::spec_persisted_options(options), legacy) == options,
{
}

/// The wheel keeps the log font size between 8 and 32 points and moves it by at most one
/// point.
pub proof fn law_font_size_stays_in_range(current: u16, up: bool)
    requires
        MIN_LOG_FONT_SIZE <= current <= MAX_LOG_FONT_SIZE,
    ensures
        MIN_LOG_FONT_SIZE <= spec_next_font_size(current, up) <= MAX_LOG_FONT_SIZE,
        spec_next_font_size(current, up) - current <= 1,
        current - spec_next_font_size(current, up) <= 1,
        up ==> spec_next_font_size(current, up) >= current,
        !up ==> spec_next_font_size(current, up) <= current,
{
}

/// A search that completed over a file's current range lets the next appended search reuse
/// its results: after `completed` records the range `get` gives, `can_extend` holds.
pub proof fn law_completed_search_can_extend(pre: FileSearchRanges, post: FileSearchRanges, path_key: Seq<char>, global: bool)
    requires
        post.limits() == pre.limits(),
        post.completed_ranges(global) == pre.completed_ranges(global).insert(path_key, pre.spec_get(path_key)),
    ensures
        spec_range_or_default(post.completed_ranges(global), path_key) == post.spec_get(path_key),
{
}

/// Setting a file's range to another range than the one its last search covered stops
/// appended searches from reusing those results: after `set`, `can_extend` fails.
pub proof fn law_changed_range_blocks_extension(
    pre: FileSearchRanges,
    post: FileSearchRanges,
    path_key: Seq<char>,
    range: SearchRange,
    global: bool,
)
    requires
        post.limits() == pre.limits().insert(path_key, range),
        post.completed_ranges(global) == pre.completed_ranges(global),
        range != spec_range_or_default(pre.completed_ranges(global), path_key),
    ensures
        spec_range_or_default(post.completed_ranges(global), path_key) != post.spec_get(path_key),
{
}

/// No two open tabs share an id.
pub open spec fn spec_tab_ids_unique(documents: Seq<DocumentTab>) -> bool {
    forall|i: int, j: int| 0 <= i < j < documents.len() ==> documents[i].id != documents[j].id
}

/// A search of the active file that ran to completion installs its results: the answer of the
/// search a start began, for the revision it returned, puts the results and their query into
/// the file's tab, shows them, and leaves the workspace ready.
pub proof fn law_started_search_answer_installs<P: Copy, R>(
    pre: Workspace<P>,
    mid: Workspace<P>,
    post: Workspace<P>,
    text: Seq<char>,
    start: CurrentSearchStart,
    query: QueryOptions,
    result: R,
    finish: CurrentSearchFinish<R>,
)
    requires
        spec_tab_ids_unique(pre.documents@),
        spec_current_started(pre, mid, text, start),
        start matches CurrentSearchStart::Started { document_id, revision, .. }
            && spec_current_finished(mid, post, document_id, revision, query, SearchRunOutcome::Completed(result), finish),
    ensures
        finish == CurrentSearchFinish::<R>::Installed(result),
        post.documents@[pre.active_ix->0 as int].results_visible,
        post.documents@[pre.active_ix->0 as int].search_query == query,
        post.runs.running is None,
        post.runs.activity == Activity::Ready,
{
    let ix = pre.active_ix->0 as int;
    let id = pre.documents@[ix].id;
    assert(forall|j: int| 0 <= j < ix ==> mid.documents@[j].id != id);
    lemma_first_tab(mid.documents@, id, ix);
    assert(spec_first_tab(mid.documents@, id) == Some(ix));
}

/// Switching the search scope away and back keeps what was typed: once a scope is left with
/// `draft` in the input, entering it again (a multi-file scope with the context it handed back
/// on leaving, the current-file scope with a file active) shows `draft` again.
pub proof fn law_scope_round_trip_keeps_draft<P: Copy>(
    pre: Workspace<P>,
    mid: Workspace<P>,
    post: Workspace<P>,
    away: SearchScope,
    draft: String,
    away_context: RetainedContext,
    away_switch: Option<ScopeSwitch>,
    typed: String,
    back_context: RetainedContext,
    back_switch: Option<ScopeSwitch>,
)
    requires
        pre.global_search.scope != away,
        pre.global_search.scope == SearchScope::CurrentFile ==> pre.spec_active_tab() is Some,
        spec_scope_switched(pre, mid, away, draft, away_context, away_switch),
        pre.global_search.scope != SearchScope::CurrentFile ==> (away_switch matches Some(s) && s.left_context == Some(back_context)),
        spec_scope_switched(mid, post, pre.global_search.scope, typed, back_context, back_switch),
    ensures
        back_switch matches Some(s) && s.text@ == draft@,
{
}

/// Choosing the same searched files again changes nothing: after a choice of `selected`, the
/// files it keeps are already the searched ones, so a second choice of `selected` is refused.
pub proof fn law_reapplied_selection_changes_nothing<P: Copy>(
    pre: Workspace<P>,
    post: Workspace<P>,
    selected: Seq<u64>,
    context_retained: bool,
    change: Option<SelectionChange>,
)
    requires
        spec_selection_applied(pre, post, selected, context_retained, change),
    ensures
        spec_kept_selection(post.documents@, selected).to_set() == post.global_search.selected_documents@.to_set(),
{
}

/// Of the saves of the predefined filters asked for while one runs, the latest runs next: two
/// saves waiting for a running one leave only the second, which runs once the first answer
/// arrives (with a ready store), and that answer does not report the filters as saved.
pub proof fn law_latest_waiting_filter_save_runs_next<F>(
    s0: FilterSaves<F>,
    s1: FilterSaves<F>,
    s2: FilterSaves<F>,
    s3: FilterSaves<F>,
    first_revision: u64,
    first: F,
    second_revision: u64,
    second: F,
    first_save: FilterSave<F>,
    second_save: FilterSave<F>,
    outcome: Result<bool, String>,
    done: (FilterSaveNotice, Option<FilterSave<F>>),
)
    requires
        s0.saving,
        spec_filter_save(s0, s1, true, first_revision, first, first_save),
        spec_filter_save(s1, s2, true, second_revision, second, second_save),
        spec_filter_finish(s2, s3, outcome, true, done),
    ensures
        first_save is Queued,
        second_save is Queued,
        done.1 == Some(FilterSave::Persist(second_revision, second)),
        done.0 != FilterSaveNotice::Saved,
        s3.saving,
        s3.pending is None,
{
}

/// Leaving a multi-file scope and entering it again gives its session back: a context taken
/// from `left` and put back into any workspace restores the scope's query, the results and
/// their visibility, their scope where they came from it, and the multi-file results as the
/// active region where they were active and shown.
pub proof fn law_retained_context_round_trip<P: Copy>(
    left: Workspace<P>,
    entered: Workspace<P>,
    post: Workspace<P>,
    scope: SearchScope,
    context: RetainedContext,
)
    requires
        scope != SearchScope::CurrentFile,
        spec_captured_context(left, scope, context),
        spec_context_restored(entered, post, scope, context),
    ensures
        spec_scope_query(post.global_search, scope) == spec_scope_query(left.global_search, scope),
        post.global_search.results@ == left.global_search.results@,
        post.global_search.results_visible == left.global_search.results_visible,
        (post.global_search.result_scope == Some(scope)) == (left.global_search.result_scope == Some(scope)),
        left.active_log_region == LogRegion::GlobalResults && left.global_search.results_visible
            ==> post.active_log_region == LogRegion::GlobalResults,
{
}

/// Searching a file and taking its answer keep the tabs: the same tabs, by id and order, with
/// the same active tab, whatever the answer was.
pub proof fn law_search_keeps_the_tabs<P: Copy, R>(
    pre: Workspace<P>,
    mid: Workspace<P>,
    post: Workspace<P>,
    text: Seq<char>,
    start: CurrentSearchStart,
    document_id: u64,
    revision: u64,
    query: QueryOptions,
    outcome: SearchRunOutcome<R>,
    finish: CurrentSearchFinish<R>,
)
    requires
        spec_current_started(pre, mid, text, start),
        spec_current_finished(mid, post, document_id, revision, query, outcome, finish),
    ensures
        spec_tab_ids(post.documents@) == spec_tab_ids(pre.documents@),
        post.active_ix == pre.active_ix,
{
    lemma_start_keeps_tabs(pre, mid, text, start);
    lemma_finish_keeps_tabs(mid, post, document_id, revision, query, outcome, finish);
}

proof fn lemma_start_keeps_tabs<P: Copy>(pre: Workspace<P>, mid: Workspace<P>, text: Seq<char>, start: CurrentSearchStart)
    requires
        spec_current_started(pre, mid, text, start),
    ensures
        spec_tab_ids(mid.documents@) == spec_tab_ids(pre.documents@),
        mid.active_ix == pre.active_ix,
{
    assert(spec_tab_ids(mid.documents@) =~= spec_tab_ids(pre.documents@));
}

#[verifier::rlimit(40)]
proof fn lemma_finish_keeps_tabs<P: Copy, R>(
    mid: Workspace<P>,
    post: Workspace<P>,
    document_id: u64,
    revision: u64,
    query: QueryOptions,
    outcome: SearchRunOutcome<R>,
    finish: CurrentSearchFinish<R>,
)
    requires
        spec_current_finished(mid, post, document_id, revision, query, outcome, finish),
    ensures
        spec_tab_ids(post.documents@) == spec_tab_ids(mid.documents@),
        post.active_ix == mid.active_ix,
{
    lemma_first_tab(mid.documents@, document_id, 0);
    assert(spec_tab_ids(post.documents@) =~= spec_tab_ids(mid.documents@));
}

/// A cancelled search's answer changes nothing: once the running search is cancelled, the
/// answer of any search of a file is dropped as stale and leaves the workspace as it is.
pub proof fn law_cancelled_search_answer_is_dropped<P: Copy, R>(
    pre: Workspace<P>,
    post: Workspace<P>,
    document_id: u64,
    revision: u64,
    query: QueryOptions,
    outcome: SearchRunOutcome<R>,
    finish: CurrentSearchFinish<R>,
)
    requires
        spec_current_finished(Workspace { runs: spec_cancelled(pre.runs), ..pre }, post, document_id, revision, query, outcome, finish),
    ensures
        finish is Stale,
        post == (Workspace { runs: spec_cancelled(pre.runs), ..pre }),
{
}

/// A line drag whose pointer is in an edge band scrolls the region and selects the row at the
/// edge it moves toward: upward, the region goes up by the step (not past the first row) and
/// the first visible row is selected; downward, it goes down by the step (not past the last
/// full page) and the last visible row of the new page is selected, within the table.
pub proof fn law_edge_drag_selects_the_leading_row<P>(drag: RowDragSelection<P>, frame: DragFrame)
    requires
        frame.row_count > 0,
        frame.edge is Some,
        !frame.text_selection_allowed || frame.crossed_viewport_edge,
    ensures
        ({
            let plan = spec_drag_plan(drag, frame);
            let edge = frame.edge->0;
            let page = if frame.visible_rows > 0 { frame.visible_rows as int } else { 1 };
            &&& plan.keep_scrolling
            &&& plan.scroll_top is Some
            &&& if edge.upward {
                &&& plan.scroll_top->0 == if frame.current_top >= edge.step { frame.current_top - edge.step } else { 0 }
                &&& plan.candidate == plan.scroll_top->0
            } else {
                let last_page_top = if frame.row_count >= frame.visible_rows { frame.row_count - frame.visible_rows } else { 0 };
                let top = plan.scroll_top->0;
                &&& top == if frame.current_top + edge.step <= last_page_top { frame.current_top + edge.step } else { last_page_top }
                &&& plan.candidate == if top + page - 1 <= frame.row_count - 1 { top + page - 1 } else { frame.row_count - 1 }
                &&& plan.candidate < frame.row_count
                &&& top + page - 1 < frame.row_count ==> plan.candidate >= top + frame.visible_rows - 1
            }
        }),
{
}

/// Find next from a current match of the same target starts right after it, and Find
/// previous right before it; at the view's end the search stops at the boundary. The current
/// match's row is never searched again.
pub proof fn law_quick_find_steps_past_the_current_match(
    pre: crate::quick_find::QuickFindState,
    target: crate::quick_find::QuickFindTarget,
    direction: crate::quick_find::QuickFindDirection,
    row_count: usize,
    m: crate::quick_find::QuickFindMatch,
)
    requires
        row_count > 0,
        m.view_row < row_count,
        m.target == target,
        pre.matched == Some(m),
        pre.boundary != Some(crate::quick_find::spec_boundary_of(direction)),
    ensures
        ({
            let started = crate::quick_find::spec_start_search(pre, target, direction, false, row_count, true).1;
            if direction == crate::quick_find::QuickFindDirection::Forward {
                if m.view_row + 1 < row_count {
                    started == crate::quick_find::QuickFindStart::Search { start: (m.view_row + 1) as usize }
                } else {
                    started == crate::quick_find::QuickFindStart::AtBoundary
                }
            } else {
                if m.view_row > 0 {
                    started == crate::quick_find::QuickFindStart::Search { start: (m.view_row - 1) as usize }
                } else {
                    started == crate::quick_find::QuickFindStart::AtBoundary
                }
            }
        }),
        ({
            let started = crate::quick_find::spec_start_search(pre, target, direction, false, row_count, true).1;
            started is Search ==> started->start != m.view_row
        }),
{
}

/// A keyboard extension moves from the active row (the first row without one) by one row,
/// or by the visible page (at least one row) for a page key, toward `direction`, staying within
/// the table; an edge key goes to the first or last row.
pub proof fn law_keyboard_extension_moves_by_a_row_or_a_page(
    direction: i32,
    page: bool,
    edge: Option<bool>,
    rows: crate::log_presentation::TableRows,
)
    requires
        rows.row_count > 0,
    ensures
        ({
            let current: int = match rows.active_row { Some(r) => r as int, None => 0 };
            let step: int = if page && rows.visible_len > 1 { rows.visible_len as int } else { 1 };
            let row = crate::log_presentation::spec_extension_candidate(direction, page, edge, rows);
            match edge {
                Some(last) => row == if last { rows.row_count - 1 } else { 0 },
                None => if direction < 0 {
                    row == if current >= step { current - step } else { 0 }
                } else {
                    row == if current + step <= rows.row_count - 1 { current + step } else { rows.row_count - 1 }
                },
            }
        }),
        // A page key moves further than a row key whenever the page and the rows allow.
        ({
            let current: int = match rows.active_row { Some(r) => r as int, None => 0 };
            (page && edge is None && direction >= 0 && rows.visible_len > 1
                && current + rows.visible_len <= rows.row_count - 1)
                ==> crate::log_presentation::spec_extension_candidate(direction, true, None, rows)
                    == crate::log_presentation::spec_extension_candidate(direction, false, None, rows) + rows.visible_len - 1
        }),
{
}

/// Putting an anchor back scrolls to the row its key is found at now, at the anchor's screen
/// position; only a key that is no longer found falls back to the anchor's old index, kept
/// within the rows.
pub proof fn law_anchor_lands_on_its_found_row<K, Y, N: Fn(K) -> Option<usize>>(
    a: crate::viewport_anchor::RowViewportAnchor<K, Y>,
    row_count: usize,
    item_count: usize,
    nearest_row: N,
    found: Option<usize>,
    scroll: Option<crate::log_viewport::ViewportScroll<Y>>,
)
    requires
        crate::viewport_anchor::spec_positioned(a, row_count, item_count, nearest_row, found, scroll),
    ensures
        found matches Some(r) ==> (scroll matches Some(s)
            && s.command == (crate::log_viewport::ViewportCommand::ScrollRowToViewportY { row_ix: r, viewport_y: a.viewport_y })),
        found is None && row_count > 0 ==> (scroll matches Some(s)
            && s.command == (crate::log_viewport::ViewportCommand::ScrollRowToViewportY {
                row_ix: if a.fallback_ix < row_count { a.fallback_ix } else { (row_count - 1) as usize },
                viewport_y: a.viewport_y,
            })),
        found is None && row_count == 0 ==> scroll is None,
{
}

/// Putting a global-results anchor back scrolls to the row its key is found at now; where
/// the key is gone, to the match row found closest to its old index; only without either, to
/// its old index kept within the rows. The row comes back at the anchor's screen position.
pub proof fn law_global_anchor_lands_on_its_found_row<K, Y, N: Fn(K) -> Option<usize>, C: Fn(usize) -> Option<usize>>(
    a: crate::viewport_anchor::RowViewportAnchor<K, Y>,
    row_count: usize,
    item_count: usize,
    nearest_row: N,
    closest_match_row: C,
    found: Option<usize>,
    closest: Option<usize>,
    scroll: Option<crate::log_viewport::ViewportScroll<Y>>,
)
    requires
        crate::viewport_anchor::spec_positioned_global(a, row_count, item_count, nearest_row, closest_match_row, found, closest, scroll),
    ensures
        found matches Some(r) ==> (scroll matches Some(s)
            && s.command == (crate::log_viewport::ViewportCommand::ScrollRowToViewportY { row_ix: r, viewport_y: a.viewport_y })),
        found is None && closest is Some ==> (scroll matches Some(s)
            && s.command == (crate::log_viewport::ViewportCommand::ScrollRowToViewportY { row_ix: closest->0, viewport_y: a.viewport_y })),
        found is None && closest is None && row_count > 0 ==> (scroll matches Some(s)
            && s.command == (crate::log_viewport::ViewportCommand::ScrollRowToViewportY {
                row_ix: if a.fallback_ix < row_count { a.fallback_ix } else { (row_count - 1) as usize },
                viewport_y: a.viewport_y,
            })),
{
}

/// A wheel step moves the log font size by exactly one point toward the wheel's direction,
/// unless it is already at that end of the range: down from above the smallest size it
/// shrinks by one, up from below the largest it grows by one; a ready workspace reports and
/// takes that change.
pub proof fn law_font_wheel_moves_one_point<P>(pre: Workspace<P>, post: Workspace<P>, up: bool, outcome: crate::preferences::FontWheel)
    requires
        MIN_LOG_FONT_SIZE <= pre.prefs.app_settings.log_font_size <= MAX_LOG_FONT_SIZE,
        crate::preferences::spec_font_step(pre, post, up, outcome),
    ensures
        ({
            let current = pre.prefs.app_settings.log_font_size;
            &&& !up && current > MIN_LOG_FONT_SIZE ==> spec_next_font_size(current, up) == current - 1
            &&& up && current < MAX_LOG_FONT_SIZE ==> spec_next_font_size(current, up) == current + 1
            &&& !up && current == MIN_LOG_FONT_SIZE ==> spec_next_font_size(current, up) == current
            &&& up && current == MAX_LOG_FONT_SIZE ==> spec_next_font_size(current, up) == current
            &&& pre.files.store_ready && !up && current > MIN_LOG_FONT_SIZE ==>
                outcome == (crate::preferences::FontWheel::Changed { from: current, to: (current - 1) as u16 })
                    && post.prefs.app_settings.log_font_size == current - 1
            &&& pre.files.store_ready && up && current < MAX_LOG_FONT_SIZE ==>
                outcome == (crate::preferences::FontWheel::Changed { from: current, to: (current + 1) as u16 })
                    && post.prefs.app_settings.log_font_size == current + 1
        }),
{
}

} // verus!
